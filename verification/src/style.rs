//! The colour model: the sixteen named colours, the five decorations,
//! 24-bit colours with their hexadecimal notation, and the nearest named
//! colour of a 24-bit one.
use crate::text::{decimal, lemma_decimal_injective, push_decimal};
use vstd::prelude::*;

verus! {

pub const COLOR_BLACK_CODE: &'static str = "30";

pub const COLOR_RED_CODE: &'static str = "31";

pub const COLOR_GREEN_CODE: &'static str = "32";

pub const COLOR_YELLOW_CODE: &'static str = "33";

pub const COLOR_BLUE_CODE: &'static str = "34";

pub const COLOR_MAGENTA_CODE: &'static str = "35";

pub const COLOR_CYAN_CODE: &'static str = "36";

pub const COLOR_WHITE_CODE: &'static str = "37";

pub const COLOR_BRIGHT_BLACK_CODE: &'static str = "90";

pub const COLOR_BRIGHT_RED_CODE: &'static str = "91";

pub const COLOR_BRIGHT_GREEN_CODE: &'static str = "92";

pub const COLOR_BRIGHT_YELLOW_CODE: &'static str = "93";

pub const COLOR_BRIGHT_BLUE_CODE: &'static str = "94";

pub const COLOR_BRIGHT_MAGENTA_CODE: &'static str = "95";

pub const COLOR_BRIGHT_CYAN_CODE: &'static str = "96";

pub const COLOR_BRIGHT_WHITE_CODE: &'static str = "97";

pub const COLOR_BG_BLACK_CODE: &'static str = "40";

pub const COLOR_BG_RED_CODE: &'static str = "41";

pub const COLOR_BG_GREEN_CODE: &'static str = "42";

pub const COLOR_BG_YELLOW_CODE: &'static str = "43";

pub const COLOR_BG_BLUE_CODE: &'static str = "44";

pub const COLOR_BG_MAGENTA_CODE: &'static str = "45";

pub const COLOR_BG_CYAN_CODE: &'static str = "46";

pub const COLOR_BG_WHITE_CODE: &'static str = "47";

pub const COLOR_BG_BRIGHT_BLACK_CODE: &'static str = "100";

pub const COLOR_BG_BRIGHT_RED_CODE: &'static str = "101";

pub const COLOR_BG_BRIGHT_GREEN_CODE: &'static str = "102";

pub const COLOR_BG_BRIGHT_YELLOW_CODE: &'static str = "103";

pub const COLOR_BG_BRIGHT_BLUE_CODE: &'static str = "104";

pub const COLOR_BG_BRIGHT_MAGENTA_CODE: &'static str = "105";

pub const COLOR_BG_BRIGHT_CYAN_CODE: &'static str = "106";

pub const COLOR_BG_BRIGHT_WHITE_CODE: &'static str = "107";

pub const COLOR_RGB: &'static str = "38;2;";

pub const COLOR_BG_RGB: &'static str = "48;2;";

pub const DECORATION_BOLD_CODE: &'static str = "1";

pub const DECORATION_DIM_CODE: &'static str = "2";

pub const DECORATION_ITALIC_CODE: &'static str = "3";

pub const DECORATION_UNDERLINE_CODE: &'static str = "4";

pub const DECORATION_INVERT_CODE: &'static str = "7";

/// The reference table for the nearest named colour: the 24-bit value that
/// each named colour stands for, in palette order.
pub const RGB_COLORS: [((u8, u8, u8), Color); 16] = [
    ((0, 0, 0), Color::Black),
    ((205, 49, 49), Color::Red),
    ((13, 188, 121), Color::Green),
    ((229, 229, 16), Color::Yellow),
    ((36, 114, 200), Color::Blue),
    ((188, 63, 188), Color::Magenta),
    ((17, 168, 205), Color::Cyan),
    ((229, 229, 229), Color::White),
    ((102, 102, 102), Color::BrightBlack),
    ((241, 76, 76), Color::BrightRed),
    ((35, 209, 139), Color::BrightGreen),
    ((245, 245, 67), Color::BrightYellow),
    ((59, 142, 234), Color::BrightBlue),
    ((214, 112, 214), Color::BrightMagenta),
    ((41, 184, 219), Color::BrightCyan),
    ((255, 255, 255), Color::BrightWhite),
];

/// One of the sixteen named terminal colours: eight base colours followed by
/// their bright variants.
#[derive(Clone, Copy, Debug, PartialEq, Eq, Structural)]
pub enum Color {
    Black,
    Red,
    Green,
    Yellow,
    Blue,
    Magenta,
    Cyan,
    White,
    BrightBlack,
    BrightRed,
    BrightGreen,
    BrightYellow,
    BrightBlue,
    BrightMagenta,
    BrightCyan,
    BrightWhite,
}

impl Color {
    /// Position of the colour in the palette: `0` for black up to `15` for
    /// bright white.
    pub open spec fn ordinal(self) -> nat {
        match self {
            Color::Black => 0,
            Color::Red => 1,
            Color::Green => 2,
            Color::Yellow => 3,
            Color::Blue => 4,
            Color::Magenta => 5,
            Color::Cyan => 6,
            Color::White => 7,
            Color::BrightBlack => 8,
            Color::BrightRed => 9,
            Color::BrightGreen => 10,
            Color::BrightYellow => 11,
            Color::BrightBlue => 12,
            Color::BrightMagenta => 13,
            Color::BrightCyan => 14,
            Color::BrightWhite => 15,
        }
    }

    /// The SGR number that selects the colour as foreground: `30` to `37`
    /// for the base colours, `90` to `97` for the bright ones.
    pub open spec fn fg_number(self) -> nat {
        if self.ordinal() < 8 {
            30 + self.ordinal()
        } else {
            82 + self.ordinal()
        }
    }

    /// The SGR number that selects the colour as background: ten above the
    /// foreground number.
    pub open spec fn bg_number(self) -> nat {
        self.fg_number() + 10
    }

    /// Get foreground code for a particular ANSI colour.
    pub fn fg_code(self) -> (code: &'static str)
        ensures
            code@ == decimal(self.fg_number()),
    {
        proof {
            lemma_foreground_codes();
        }
        match self {
            Color::Black => COLOR_BLACK_CODE,
            Color::Red => COLOR_RED_CODE,
            Color::Green => COLOR_GREEN_CODE,
            Color::Yellow => COLOR_YELLOW_CODE,
            Color::Blue => COLOR_BLUE_CODE,
            Color::Magenta => COLOR_MAGENTA_CODE,
            Color::Cyan => COLOR_CYAN_CODE,
            Color::White => COLOR_WHITE_CODE,
            Color::BrightBlack => COLOR_BRIGHT_BLACK_CODE,
            Color::BrightRed => COLOR_BRIGHT_RED_CODE,
            Color::BrightGreen => COLOR_BRIGHT_GREEN_CODE,
            Color::BrightYellow => COLOR_BRIGHT_YELLOW_CODE,
            Color::BrightBlue => COLOR_BRIGHT_BLUE_CODE,
            Color::BrightMagenta => COLOR_BRIGHT_MAGENTA_CODE,
            Color::BrightCyan => COLOR_BRIGHT_CYAN_CODE,
            Color::BrightWhite => COLOR_BRIGHT_WHITE_CODE,
        }
    }

    /// Get background code for a particular ANSI colour.
    pub fn bg_code(self) -> (code: &'static str)
        ensures
            code@ == decimal(self.bg_number()),
    {
        proof {
            lemma_background_codes();
        }
        match self {
            Color::Black => COLOR_BG_BLACK_CODE,
            Color::Red => COLOR_BG_RED_CODE,
            Color::Green => COLOR_BG_GREEN_CODE,
            Color::Yellow => COLOR_BG_YELLOW_CODE,
            Color::Blue => COLOR_BG_BLUE_CODE,
            Color::Magenta => COLOR_BG_MAGENTA_CODE,
            Color::Cyan => COLOR_BG_CYAN_CODE,
            Color::White => COLOR_BG_WHITE_CODE,
            Color::BrightBlack => COLOR_BG_BRIGHT_BLACK_CODE,
            Color::BrightRed => COLOR_BG_BRIGHT_RED_CODE,
            Color::BrightGreen => COLOR_BG_BRIGHT_GREEN_CODE,
            Color::BrightYellow => COLOR_BG_BRIGHT_YELLOW_CODE,
            Color::BrightBlue => COLOR_BG_BRIGHT_BLUE_CODE,
            Color::BrightMagenta => COLOR_BG_BRIGHT_MAGENTA_CODE,
            Color::BrightCyan => COLOR_BG_BRIGHT_CYAN_CODE,
            Color::BrightWhite => COLOR_BG_BRIGHT_WHITE_CODE,
        }
    }
}

/// No two codes of the colour model are the same text: different colours
/// have different foreground codes and different background codes, and no
/// foreground code is a background code.
pub proof fn lemma_color_codes_distinct(a: Color, b: Color)
    ensures
        a != b ==> decimal(a.fg_number()) != decimal(b.fg_number()),
        a != b ==> decimal(a.bg_number()) != decimal(b.bg_number()),
        decimal(a.fg_number()) != decimal(b.bg_number()),
{
    if decimal(a.fg_number()) == decimal(b.fg_number()) {
        lemma_decimal_injective(a.fg_number(), b.fg_number());
    }
    if decimal(a.bg_number()) == decimal(b.bg_number()) {
        lemma_decimal_injective(a.bg_number(), b.bg_number());
    }
    if decimal(a.fg_number()) == decimal(b.bg_number()) {
        lemma_decimal_injective(a.fg_number(), b.bg_number());
    }
}

/// Each foreground code constant is the decimal notation of its number.
proof fn lemma_foreground_codes()
    ensures
        COLOR_BLACK_CODE@ == decimal(30),
        COLOR_RED_CODE@ == decimal(31),
        COLOR_GREEN_CODE@ == decimal(32),
        COLOR_YELLOW_CODE@ == decimal(33),
        COLOR_BLUE_CODE@ == decimal(34),
        COLOR_MAGENTA_CODE@ == decimal(35),
        COLOR_CYAN_CODE@ == decimal(36),
        COLOR_WHITE_CODE@ == decimal(37),
        COLOR_BRIGHT_BLACK_CODE@ == decimal(90),
        COLOR_BRIGHT_RED_CODE@ == decimal(91),
        COLOR_BRIGHT_GREEN_CODE@ == decimal(92),
        COLOR_BRIGHT_YELLOW_CODE@ == decimal(93),
        COLOR_BRIGHT_BLUE_CODE@ == decimal(94),
        COLOR_BRIGHT_MAGENTA_CODE@ == decimal(95),
        COLOR_BRIGHT_CYAN_CODE@ == decimal(96),
        COLOR_BRIGHT_WHITE_CODE@ == decimal(97),
{
    reveal_with_fuel(decimal, 2);
    reveal_strlit("30");
    reveal_strlit("31");
    reveal_strlit("32");
    reveal_strlit("33");
    reveal_strlit("34");
    reveal_strlit("35");
    reveal_strlit("36");
    reveal_strlit("37");
    reveal_strlit("90");
    reveal_strlit("91");
    reveal_strlit("92");
    reveal_strlit("93");
    reveal_strlit("94");
    reveal_strlit("95");
    reveal_strlit("96");
    reveal_strlit("97");
    assert(COLOR_BLACK_CODE@ =~= decimal(30));
    assert(COLOR_RED_CODE@ =~= decimal(31));
    assert(COLOR_GREEN_CODE@ =~= decimal(32));
    assert(COLOR_YELLOW_CODE@ =~= decimal(33));
    assert(COLOR_BLUE_CODE@ =~= decimal(34));
    assert(COLOR_MAGENTA_CODE@ =~= decimal(35));
    assert(COLOR_CYAN_CODE@ =~= decimal(36));
    assert(COLOR_WHITE_CODE@ =~= decimal(37));
    assert(COLOR_BRIGHT_BLACK_CODE@ =~= decimal(90));
    assert(COLOR_BRIGHT_RED_CODE@ =~= decimal(91));
    assert(COLOR_BRIGHT_GREEN_CODE@ =~= decimal(92));
    assert(COLOR_BRIGHT_YELLOW_CODE@ =~= decimal(93));
    assert(COLOR_BRIGHT_BLUE_CODE@ =~= decimal(94));
    assert(COLOR_BRIGHT_MAGENTA_CODE@ =~= decimal(95));
    assert(COLOR_BRIGHT_CYAN_CODE@ =~= decimal(96));
    assert(COLOR_BRIGHT_WHITE_CODE@ =~= decimal(97));
}

/// Each background code constant is the decimal notation of its number.
proof fn lemma_background_codes()
    ensures
        COLOR_BG_BLACK_CODE@ == decimal(40),
        COLOR_BG_RED_CODE@ == decimal(41),
        COLOR_BG_GREEN_CODE@ == decimal(42),
        COLOR_BG_YELLOW_CODE@ == decimal(43),
        COLOR_BG_BLUE_CODE@ == decimal(44),
        COLOR_BG_MAGENTA_CODE@ == decimal(45),
        COLOR_BG_CYAN_CODE@ == decimal(46),
        COLOR_BG_WHITE_CODE@ == decimal(47),
        COLOR_BG_BRIGHT_BLACK_CODE@ == decimal(100),
        COLOR_BG_BRIGHT_RED_CODE@ == decimal(101),
        COLOR_BG_BRIGHT_GREEN_CODE@ == decimal(102),
        COLOR_BG_BRIGHT_YELLOW_CODE@ == decimal(103),
        COLOR_BG_BRIGHT_BLUE_CODE@ == decimal(104),
        COLOR_BG_BRIGHT_MAGENTA_CODE@ == decimal(105),
        COLOR_BG_BRIGHT_CYAN_CODE@ == decimal(106),
        COLOR_BG_BRIGHT_WHITE_CODE@ == decimal(107),
{
    reveal_with_fuel(decimal, 3);
    reveal_strlit("40");
    reveal_strlit("41");
    reveal_strlit("42");
    reveal_strlit("43");
    reveal_strlit("44");
    reveal_strlit("45");
    reveal_strlit("46");
    reveal_strlit("47");
    reveal_strlit("100");
    reveal_strlit("101");
    reveal_strlit("102");
    reveal_strlit("103");
    reveal_strlit("104");
    reveal_strlit("105");
    reveal_strlit("106");
    reveal_strlit("107");
    assert(COLOR_BG_BLACK_CODE@ =~= decimal(40));
    assert(COLOR_BG_RED_CODE@ =~= decimal(41));
    assert(COLOR_BG_GREEN_CODE@ =~= decimal(42));
    assert(COLOR_BG_YELLOW_CODE@ =~= decimal(43));
    assert(COLOR_BG_BLUE_CODE@ =~= decimal(44));
    assert(COLOR_BG_MAGENTA_CODE@ =~= decimal(45));
    assert(COLOR_BG_CYAN_CODE@ =~= decimal(46));
    assert(COLOR_BG_WHITE_CODE@ =~= decimal(47));
    assert(COLOR_BG_BRIGHT_BLACK_CODE@ =~= decimal(100));
    assert(COLOR_BG_BRIGHT_RED_CODE@ =~= decimal(101));
    assert(COLOR_BG_BRIGHT_GREEN_CODE@ =~= decimal(102));
    assert(COLOR_BG_BRIGHT_YELLOW_CODE@ =~= decimal(103));
    assert(COLOR_BG_BRIGHT_BLUE_CODE@ =~= decimal(104));
    assert(COLOR_BG_BRIGHT_MAGENTA_CODE@ =~= decimal(105));
    assert(COLOR_BG_BRIGHT_CYAN_CODE@ =~= decimal(106));
    assert(COLOR_BG_BRIGHT_WHITE_CODE@ =~= decimal(107));
}

/// One of the five text decorations.
#[derive(Clone, Copy, Debug, PartialEq, Eq, Structural)]
pub enum Decoration {
    Bold,
    Dim,
    Italic,
    Underline,
    Invert,
}

impl Decoration {
    /// The SGR number that switches the decoration on.
    pub open spec fn number(self) -> nat {
        match self {
            Decoration::Bold => 1,
            Decoration::Dim => 2,
            Decoration::Italic => 3,
            Decoration::Underline => 4,
            Decoration::Invert => 7,
        }
    }

    /// Get code for a particular ANSI decoration.
    pub fn code(self) -> (code: &'static str)
        ensures
            code@ == decimal(self.number()),
    {
        proof {
            reveal_strlit("1");
            reveal_strlit("2");
            reveal_strlit("3");
            reveal_strlit("4");
            reveal_strlit("7");
        }
        let code = match self {
            Decoration::Bold => DECORATION_BOLD_CODE,
            Decoration::Dim => DECORATION_DIM_CODE,
            Decoration::Italic => DECORATION_ITALIC_CODE,
            Decoration::Underline => DECORATION_UNDERLINE_CODE,
            Decoration::Invert => DECORATION_INVERT_CODE,
        };
        assert(code@ =~= decimal(self.number()));
        code
    }
}

/// Whether `c` is a hexadecimal digit, in either case.
pub open spec fn is_hex_digit(c: char) -> bool {
    ||| '0' <= c <= '9'
    ||| 'a' <= c <= 'f'
    ||| 'A' <= c <= 'F'
}

/// The value of the hexadecimal digit `c`.
pub open spec fn hex_value(c: char) -> nat
    recommends
        is_hex_digit(c),
{
    if '0' <= c <= '9' {
        (c as nat - '0' as nat) as nat
    } else if 'a' <= c <= 'f' {
        (c as nat - 'a' as nat + 10) as nat
    } else {
        (c as nat - 'A' as nat + 10) as nat
    }
}

/// The byte written with the two hexadecimal digits `high` and `low`.
pub open spec fn hex_byte(high: char, low: char) -> u8
    recommends
        is_hex_digit(high),
        is_hex_digit(low),
{
    (16 * hex_value(high) + hex_value(low)) as u8
}

/// `text` without one leading `#`, if it has one.
pub open spec fn strip_hash(text: Seq<char>) -> Seq<char> {
    if text.len() > 0 && text[0] == '#' {
        text.subrange(1, text.len() as int)
    } else {
        text
    }
}

/// Whether every character of `text` is a hexadecimal digit.
pub open spec fn all_hex_digits(text: Seq<char>) -> bool {
    forall|i: int| 0 <= i < text.len() ==> is_hex_digit(#[trigger] text[i])
}

/// The digits of a well-formed hexadecimal colour: what is left of `text`
/// after one optional leading `#`, provided that it is three or six
/// hexadecimal digits.
pub open spec fn hex_digits(text: Seq<char>) -> Option<Seq<char>> {
    let digits = strip_hash(text);
    if (digits.len() == 6 || digits.len() == 3) && all_hex_digits(digits) {
        Some(digits)
    } else {
        None
    }
}

/// The colour that the hexadecimal notation `text` stands for. Six digits
/// are three bytes; of three digits each one is written twice to give a
/// byte. Anything else stands for no colour.
pub open spec fn rgb_from_hex(text: Seq<char>) -> Option<RGB> {
    match hex_digits(text) {
        None => None,
        Some(digits) => if digits.len() == 6 {
            Some(
                RGB {
                    r: hex_byte(digits[0], digits[1]),
                    g: hex_byte(digits[2], digits[3]),
                    b: hex_byte(digits[4], digits[5]),
                },
            )
        } else {
            Some(
                RGB {
                    r: hex_byte(digits[0], digits[0]),
                    g: hex_byte(digits[1], digits[1]),
                    b: hex_byte(digits[2], digits[2]),
                },
            )
        },
    }
}

/// Six hexadecimal digits, with or without a leading `#`, stand for the
/// colour whose channels are the three bytes that the digits write, two by
/// two.
pub proof fn lemma_six_digit_hex(digits: Seq<char>)
    requires
        digits.len() == 6,
        all_hex_digits(digits),
    ensures
        rgb_from_hex(digits) == Some(
            RGB {
                r: hex_byte(digits[0], digits[1]),
                g: hex_byte(digits[2], digits[3]),
                b: hex_byte(digits[4], digits[5]),
            },
        ),
        rgb_from_hex(seq!['#'] + digits) == rgb_from_hex(digits),
{
    assert(is_hex_digit(digits[0]));
    assert(strip_hash(digits) == digits);
    assert(strip_hash(seq!['#'] + digits) == digits);
}

/// Three hexadecimal digits, with or without a leading `#`, stand for the
/// colour in which each channel is its digit written twice: seventeen times
/// the value of the digit.
pub proof fn lemma_three_digit_hex(digits: Seq<char>)
    requires
        digits.len() == 3,
        all_hex_digits(digits),
    ensures
        rgb_from_hex(digits) == Some(
            RGB {
                r: hex_byte(digits[0], digits[0]),
                g: hex_byte(digits[1], digits[1]),
                b: hex_byte(digits[2], digits[2]),
            },
        ),
        rgb_from_hex(seq!['#'] + digits) == rgb_from_hex(digits),
        forall|i: int|
            0 <= i < 3 ==> #[trigger] hex_byte(digits[i], digits[i]) == 17 * hex_value(digits[i]),
{
    assert(is_hex_digit(digits[0]));
    assert(is_hex_digit(digits[1]));
    assert(is_hex_digit(digits[2]));
    assert(strip_hash(digits) == digits);
    assert(strip_hash(seq!['#'] + digits) == digits);
}

/// Text that, after one optional leading `#`, is not three or six characters
/// long, or that holds a character other than a hexadecimal digit, stands
/// for no colour.
pub proof fn lemma_malformed_hex(text: Seq<char>)
    requires
        ({
            let digits = strip_hash(text);
            ||| (digits.len() != 3 && digits.len() != 6)
            ||| exists|i: int| 0 <= i < digits.len() && !is_hex_digit(#[trigger] digits[i])
        }),
    ensures
        rgb_from_hex(text).is_none(),
{
}

/// Text stands for a colour exactly if, after one optional leading `#`, it is
/// three or six hexadecimal digits.
pub proof fn lemma_hex_is_color(text: Seq<char>)
    ensures
        rgb_from_hex(text).is_some() <==> {
            let digits = strip_hash(text);
            (digits.len() == 3 || digits.len() == 6) && all_hex_digits(digits)
        },
{
}

/// A 24-bit colour: three 8-bit channels.
#[derive(Clone, Copy, Debug, PartialEq, Eq, Structural)]
pub struct RGB {
    pub r: u8,
    pub g: u8,
    pub b: u8,
}

impl RGB {
    /// The three channels in decimal, separated by `;`.
    pub open spec fn channels_text(self) -> Seq<char> {
        decimal(self.r as nat) + seq![';'] + decimal(self.g as nat) + seq![';'] + decimal(
            self.b as nat,
        )
    }

    /// The SGR parameter that selects the colour as foreground.
    pub open spec fn fg_parameter(self) -> Seq<char> {
        COLOR_RGB@ + self.channels_text()
    }

    /// The SGR parameter that selects the colour as background.
    pub open spec fn bg_parameter(self) -> Seq<char> {
        COLOR_BG_RGB@ + self.channels_text()
    }

    /// Squared Euclidean distance from the colour to entry `i` of the
    /// reference table.
    pub open spec fn distance(self, i: int) -> int
        recommends
            0 <= i < 16,
    {
        let reference = RGB_COLORS[i].0;
        (self.r - reference.0) * (self.r - reference.0) + (self.g - reference.1) * (self.g
            - reference.1) + (self.b - reference.2) * (self.b - reference.2)
    }

    /// Whether entry `k` of the reference table is the nearest one: no
    /// entry is nearer, and every entry before it is farther.
    pub open spec fn is_nearest(self, k: int) -> bool {
        &&& 0 <= k < 16
        &&& forall|j: int| 0 <= j < 16 ==> self.distance(k) <= #[trigger] self.distance(j)
        &&& forall|j: int| 0 <= j < k ==> self.distance(k) < #[trigger] self.distance(j)
    }

    /// The named colour nearest to this one.
    pub open spec fn closest(self) -> Color {
        RGB_COLORS[choose|k: int| self.is_nearest(k)].1
    }

    /// At most one entry of the reference table is the nearest.
    pub proof fn lemma_nearest_unique(self, k: int, l: int)
        requires
            self.is_nearest(k),
            self.is_nearest(l),
        ensures
            k == l,
    {
        if k < l {
            assert(self.distance(l) < self.distance(k));
        } else if l < k {
            assert(self.distance(k) < self.distance(l));
        }
    }

    /// Whether entry `k` is the nearest of the first `n` entries of the
    /// reference table.
    pub open spec fn is_nearest_among(self, k: int, n: int) -> bool {
        &&& 0 <= k < n
        &&& forall|j: int| 0 <= j < n ==> self.distance(k) <= #[trigger] self.distance(j)
        &&& forall|j: int| 0 <= j < k ==> self.distance(k) < #[trigger] self.distance(j)
    }

    /// Among the first `n` entries of the reference table one is the
    /// nearest.
    proof fn lemma_nearest_among_exists(self, n: int)
        requires
            1 <= n <= 16,
        ensures
            exists|k: int| self.is_nearest_among(k, n),
        decreases n,
    {
        if n == 1 {
            assert(self.is_nearest_among(0, 1));
        } else {
            let last = n - 1;
            self.lemma_nearest_among_exists(last);
            let k = choose|k: int| self.is_nearest_among(k, last);
            if self.distance(last) < self.distance(k) {
                assert(self.is_nearest_among(last, n));
            } else {
                assert(self.is_nearest_among(k, n));
            }
        }
    }

    /// Every colour has a nearest entry in the reference table.
    pub proof fn lemma_nearest_exists(self)
        ensures
            exists|k: int| self.is_nearest(k),
    {
        self.lemma_nearest_among_exists(16);
        let k = choose|k: int| self.is_nearest_among(k, 16);
        assert(self.is_nearest(k));
    }

    /// The nearest named colour is the colour of the nearest entry of the
    /// reference table, which is the entry at the colour's own place: no
    /// entry is nearer, and every entry before it is farther.
    pub proof fn lemma_closest_is_nearest(self)
        ensures
            self.is_nearest(self.closest().ordinal() as int),
            RGB_COLORS[self.closest().ordinal() as int].1 == self.closest(),
    {
        self.lemma_nearest_exists();
    }

    /// Create a new RGB value.
    pub fn new(r: u8, g: u8, b: u8) -> (rgb: Self)
        ensures
            rgb == (RGB { r, g, b }),
    {
        Self { r, g, b }
    }

    /// Create a new RGB value from a 3 or 6 character hex string, with or
    /// without a leading `#`. Any other text gives `None`.
    pub fn new_from_hex(hex: &str) -> (rgb: Option<Self>)
        ensures
            rgb == rgb_from_hex(hex@),
    {
        let hex_str = validate_hex_value(hex)?;

        if hex_str.unicode_len() == 6 {
            let r = byte_of_digits(hex_str.get_char(0), hex_str.get_char(1));
            let g = byte_of_digits(hex_str.get_char(2), hex_str.get_char(3));
            let b = byte_of_digits(hex_str.get_char(4), hex_str.get_char(5));
            Some(Self { r, g, b })
        } else {
            let r_char = hex_str.get_char(0);
            let g_char = hex_str.get_char(1);
            let b_char = hex_str.get_char(2);
            let r = byte_of_digits(r_char, r_char);
            let g = byte_of_digits(g_char, g_char);
            let b = byte_of_digits(b_char, b_char);
            Some(Self { r, g, b })
        }
    }

    /// Append the foreground SGR parameter of the colour to `out`.
    pub fn write_fg_sgr(self, out: &mut String)
        ensures
            final(out)@ == old(out)@ + self.fg_parameter(),
    {
        out.append(COLOR_RGB);
        self.write_channels(out);
        assert(out@ =~= old(out)@ + self.fg_parameter());
    }

    /// Append the background SGR parameter of the colour to `out`.
    pub fn write_bg_sgr(self, out: &mut String)
        ensures
            final(out)@ == old(out)@ + self.bg_parameter(),
    {
        out.append(COLOR_BG_RGB);
        self.write_channels(out);
        assert(out@ =~= old(out)@ + self.bg_parameter());
    }

    /// Append the three channels in decimal, separated by `;`.
    fn write_channels(self, out: &mut String)
        ensures
            final(out)@ == old(out)@ + self.channels_text(),
    {
        proof {
            reveal_strlit(";");
        }
        push_decimal(out, self.r);
        out.append(";");
        push_decimal(out, self.g);
        out.append(";");
        push_decimal(out, self.b);
        assert(out@ =~= old(out)@ + self.channels_text());
    }

    /// Work out the closest ANSI colour to an RGB value for use if terminal
    /// doesn't support RGB: the first entry of the reference table at the
    /// least squared distance.
    pub fn closest_color(self) -> (color: Option<Color>)
        ensures
            color == Some(self.closest()),
            exists|k: int| self.is_nearest(k) && color == Some(RGB_COLORS[k].1),
    {
        let mut closest_color: Option<Color> = None;
        let mut closest_distance: i32 = i32::MAX;
        let ghost mut best: int = 0;

        let mut i: usize = 0;
        while i < 16
            invariant
                i <= 16,
                i == 0 ==> closest_color.is_none() && closest_distance == i32::MAX,
                i > 0 ==> {
                    &&& 0 <= best < i
                    &&& closest_color == Some(RGB_COLORS[best].1)
                    &&& closest_distance == self.distance(best)
                    &&& forall|j: int|
                        0 <= j < i ==> self.distance(best) <= #[trigger] self.distance(j)
                    &&& forall|j: int|
                        0 <= j < best ==> self.distance(best) < #[trigger] self.distance(j)
                },
            decreases 16 - i,
        {
            let (rgb, color) = RGB_COLORS[i];
            let (r, g, b) = rgb;
            let dr = squared_difference(self.r, r);
            let dg = squared_difference(self.g, g);
            let db = squared_difference(self.b, b);
            let d = dr + dg + db;
            assert(d == self.distance(i as int));
            if d < closest_distance {
                closest_color = Some(color);
                closest_distance = d;
                proof {
                    best = i as int;
                }
            }
            i += 1;
        }

        proof {
            assert(self.is_nearest(best));
            let chosen = choose|k: int| self.is_nearest(k);
            self.lemma_nearest_unique(best, chosen);
        }
        closest_color
    }
}

/// The square of the difference of two channels.
fn squared_difference(a: u8, b: u8) -> (d: i32)
    ensures
        d == (a - b) * (a - b),
        0 <= d <= 65025,
{
    let delta: i32 = a as i32 - b as i32;
    assert(0 <= delta * delta <= 65025) by (nonlinear_arith)
        requires
            -255 <= delta <= 255,
    ;
    delta * delta
}

/// The value of one hexadecimal digit.
fn digit_value(c: char) -> (value: u8)
    requires
        is_hex_digit(c),
    ensures
        value == hex_value(c),
        value < 16,
{
    if c >= '0' && c <= '9' {
        c as u8 - 48
    } else if c >= 'a' && c <= 'f' {
        c as u8 - 87
    } else {
        c as u8 - 55
    }
}

/// The byte written with two hexadecimal digits.
fn byte_of_digits(high: char, low: char) -> (byte: u8)
    requires
        is_hex_digit(high),
        is_hex_digit(low),
    ensures
        byte == hex_byte(high, low),
{
    16 * digit_value(high) + digit_value(low)
}

/// Whether `c` is a hexadecimal digit.
fn is_hex_char(c: char) -> (hex: bool)
    ensures
        hex == is_hex_digit(c),
{
    (c >= '0' && c <= '9') || (c >= 'a' && c <= 'f') || (c >= 'A' && c <= 'F')
}

/// Strip one optional leading `#` and accept what is left only if it is
/// three or six hexadecimal digits.
fn validate_hex_value(hex: &str) -> (digits: Option<&str>)
    ensures
        match digits {
            Some(d) => hex_digits(hex@) == Some(d@),
            None => hex_digits(hex@).is_none(),
        },
{
    let length = hex.unicode_len();
    let hex_str = if length > 0 && hex.get_char(0) == '#' {
        hex.substring_char(1, length)
    } else {
        hex
    };
    assert(hex_str@ == strip_hash(hex@));

    let count = hex_str.unicode_len();
    if count != 6 && count != 3 {
        return None;
    }
    let mut i: usize = 0;
    while i < count
        invariant
            i <= count,
            count == hex_str@.len(),
            hex_str@ == strip_hash(hex@),
            forall|j: int| 0 <= j < i ==> is_hex_digit(#[trigger] hex_str@[j]),
        decreases count - i,
    {
        if !is_hex_char(hex_str.get_char(i)) {
            assert(!is_hex_digit(hex_str@[i as int]));
            return None;
        }
        i += 1;
    }

    Some(hex_str)
}

/// Which way a toggle reads its expression.
#[derive(Clone, Copy, Debug, PartialEq, Eq, Structural)]
pub enum Comparison {
    Is,
    Not,
}

} // verus!
