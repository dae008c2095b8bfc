//! Colours as four 8-bit channels.

use vstd::prelude::*;
use vstd::string::StringExecFns;

verus! {

/// A colour with red, green, blue and alpha channels.
#[derive(Clone, Copy, Debug, PartialEq, Eq, Structural)]
pub struct Color {
    pub r: u8,
    pub g: u8,
    pub b: u8,
    pub a: u8,
}

impl Color {
    /// An opaque colour.
    pub open spec fn spec_from_rgb(r: u8, g: u8, b: u8) -> Color {
        Color { r, g, b, a: 255 }
    }

    #[verifier::when_used_as_spec(spec_from_rgb)]
    pub fn from_rgb(r: u8, g: u8, b: u8) -> (c: Color)
        ensures
            c == Color::spec_from_rgb(r, g, b),
    {
        Color { r, g, b, a: 255 }
    }

    pub fn from_rgba(r: u8, g: u8, b: u8, a: u8) -> (c: Color)
        ensures
            c == (Color { r, g, b, a }),
    {
        Color { r, g, b, a }
    }

    pub open spec fn spec_red() -> Color {
        Color { r: 255, g: 0, b: 0, a: 255 }
    }

    #[verifier::when_used_as_spec(spec_red)]
    pub fn red() -> (c: Color)
        ensures
            c == Color::spec_red(),
    {
        Color { r: 255, g: 0, b: 0, a: 255 }
    }
}

/// The character for a digit below sixteen: `0` to `9`, then `A` to `F`.
pub open spec fn digit_char(d: int) -> char {
    if d == 0 {
        '0'
    } else if d == 1 {
        '1'
    } else if d == 2 {
        '2'
    } else if d == 3 {
        '3'
    } else if d == 4 {
        '4'
    } else if d == 5 {
        '5'
    } else if d == 6 {
        '6'
    } else if d == 7 {
        '7'
    } else if d == 8 {
        '8'
    } else if d == 9 {
        '9'
    } else if d == 10 {
        'A'
    } else if d == 11 {
        'B'
    } else if d == 12 {
        'C'
    } else if d == 13 {
        'D'
    } else if d == 14 {
        'E'
    } else {
        'F'
    }
}

/// A number in decimal, without leading zeros.
pub open spec fn decimal(n: nat) -> Seq<char>
    decreases n,
{
    if n < 10 {
        seq![digit_char(n as int)]
    } else {
        decimal(n / 10).push(digit_char((n % 10) as int))
    }
}

/// A byte as two upper-case hexadecimal digits.
pub open spec fn hex_byte(b: u8) -> Seq<char> {
    seq![digit_char(b as int / 16), digit_char(b as int % 16)]
}

/// `100 * part / whole` rounded to the nearest whole number, a half rounded
/// to the even neighbour; zero where `whole` is zero.
pub open spec fn percent(part: nat, whole: nat) -> nat {
    if whole == 0 {
        0
    } else {
        let scaled = 100 * part;
        let floor = scaled / whole;
        let twice_rest = 2 * (scaled % whole);
        if twice_rest > whole || (twice_rest == whole && floor % 2 == 1) {
            floor + 1
        } else {
            floor
        }
    }
}

impl Color {
    /// The largest of the three colour channels.
    pub open spec fn max_channel(self) -> u8 {
        if self.r >= self.g && self.r >= self.b {
            self.r
        } else if self.g >= self.b {
            self.g
        } else {
            self.b
        }
    }

    /// Key (black) of the colour in percent: what the brightest channel
    /// lacks of full brightness.
    pub open spec fn key_percent(self) -> nat {
        percent((255 - self.max_channel()) as nat, 255)
    }

    /// Share in percent of cyan, magenta or yellow, for the channel value
    /// `v` of red, green or blue: what `v` lacks of the brightest channel,
    /// by that channel; zero for black.
    pub open spec fn ink_percent(self, v: u8) -> nat {
        percent((self.max_channel() - v) as nat, self.max_channel() as nat)
    }

    /// The colour as `rgb(R, G, B)`.
    pub open spec fn spec_rgb_text(self) -> Seq<char> {
        seq!['r', 'g', 'b', '('] + decimal(self.r as nat) + seq![',', ' '] + decimal(self.g as nat)
            + seq![',', ' '] + decimal(self.b as nat) + seq![')']
    }

    /// The colour as `#RRGGBB`, in upper case.
    pub open spec fn spec_hex_text(self) -> Seq<char> {
        seq!['#'] + hex_byte(self.r) + hex_byte(self.g) + hex_byte(self.b)
    }

    /// The colour as `cmyk(C%, M%, Y%, K%)`.
    pub open spec fn spec_cmyk_text(self) -> Seq<char> {
        seq!['c', 'm', 'y', 'k', '('] + decimal(self.ink_percent(self.r)) + seq!['%', ',', ' ']
            + decimal(self.ink_percent(self.g)) + seq!['%', ',', ' '] + decimal(
            self.ink_percent(self.b),
        ) + seq!['%', ',', ' '] + decimal(self.key_percent()) + seq!['%', ')']
    }
}

/// The one-character string for a digit below sixteen.
fn digit_str(d: u8) -> (s: &'static str)
    requires
        d < 16,
    ensures
        s@ == seq![digit_char(d as int)],
{
    proof {
        reveal_strlit("0");
        reveal_strlit("1");
        reveal_strlit("2");
        reveal_strlit("3");
        reveal_strlit("4");
        reveal_strlit("5");
        reveal_strlit("6");
        reveal_strlit("7");
        reveal_strlit("8");
        reveal_strlit("9");
        reveal_strlit("A");
        reveal_strlit("B");
        reveal_strlit("C");
        reveal_strlit("D");
        reveal_strlit("E");
        reveal_strlit("F");
    }
    let s = if d == 0 {
        "0"
    } else if d == 1 {
        "1"
    } else if d == 2 {
        "2"
    } else if d == 3 {
        "3"
    } else if d == 4 {
        "4"
    } else if d == 5 {
        "5"
    } else if d == 6 {
        "6"
    } else if d == 7 {
        "7"
    } else if d == 8 {
        "8"
    } else if d == 9 {
        "9"
    } else if d == 10 {
        "A"
    } else if d == 11 {
        "B"
    } else if d == 12 {
        "C"
    } else if d == 13 {
        "D"
    } else if d == 14 {
        "E"
    } else {
        "F"
    };
    s
}

/// Appends a byte in decimal.
fn append_decimal(text: &mut String, n: u8)
    ensures
        final(text)@ == old(text)@ + decimal(n as nat),
{
    proof {
        reveal_with_fuel(decimal, 3);
    }
    if n >= 100 {
        text.append(digit_str(n / 100));
    }
    if n >= 10 {
        text.append(digit_str((n / 10) % 10));
    }
    text.append(digit_str(n % 10));
}

/// Appends a byte as two hexadecimal digits.
fn append_hex(text: &mut String, b: u8)
    ensures
        final(text)@ == old(text)@ + hex_byte(b),
{
    text.append(digit_str(b / 16));
    text.append(digit_str(b % 16));
}

/// Computes a percentage, rounded half to even.
fn percent_of(part: u8, whole: u8) -> (p: u8)
    requires
        part <= whole,
    ensures
        p == percent(part as nat, whole as nat),
        p <= 100,
{
    if whole == 0 {
        0
    } else {
        let scaled: u32 = 100 * part as u32;
        let floor: u32 = scaled / whole as u32;
        let twice_rest: u32 = 2 * (scaled % whole as u32);
        assert(floor <= 100 && (floor == 100 ==> twice_rest == 0)) by (nonlinear_arith)
            requires
                scaled == 100 * part,
                part <= whole,
                whole > 0,
                floor == scaled / (whole as u32),
                twice_rest == 2 * (scaled % (whole as u32)),
        ;
        if twice_rest > whole as u32 || (twice_rest == whole as u32 && floor % 2 == 1) {
            (floor + 1) as u8
        } else {
            floor as u8
        }
    }
}

impl Color {
    /// The largest of the red, green and blue channels.
    fn brightest(&self) -> (m: u8)
        ensures
            m == self.max_channel(),
            m >= self.r,
            m >= self.g,
            m >= self.b,
    {
        if self.r >= self.g && self.r >= self.b {
            self.r
        } else if self.g >= self.b {
            self.g
        } else {
            self.b
        }
    }

    /// The colour as `rgb(R, G, B)`, each channel in decimal.
    pub fn rgb_text(&self) -> (text: String)
        ensures
            text@ == self.spec_rgb_text(),
    {
        proof {
            reveal_strlit("rgb(");
            reveal_strlit(", ");
            reveal_strlit(")");
        }
        let mut text = String::from_str("rgb(");
        assert(text@ =~= seq!['r', 'g', 'b', '(']);
        append_decimal(&mut text, self.r);
        text.append(", ");
        append_decimal(&mut text, self.g);
        text.append(", ");
        append_decimal(&mut text, self.b);
        text.append(")");
        assert(")"@ =~= seq![')']);
        assert(text@ =~= self.spec_rgb_text());
        text
    }

    /// The colour as `#RRGGBB`, each channel as two upper-case hexadecimal
    /// digits.
    pub fn hex_text(&self) -> (text: String)
        ensures
            text@ == self.spec_hex_text(),
    {
        proof {
            reveal_strlit("#");
        }
        let mut text = String::from_str("#");
        assert(text@ =~= seq!['#']);
        append_hex(&mut text, self.r);
        append_hex(&mut text, self.g);
        append_hex(&mut text, self.b);
        assert(text@ =~= self.spec_hex_text());
        text
    }

    /// The colour as `cmyk(C%, M%, Y%, K%)`, each share a whole percentage.
    pub fn cmyk_text(&self) -> (text: String)
        ensures
            text@ == self.spec_cmyk_text(),
    {
        proof {
            reveal_strlit("cmyk(");
            reveal_strlit("%, ");
            reveal_strlit("%)");
        }
        let max = self.brightest();
        let mut text = String::from_str("cmyk(");
        assert(text@ =~= seq!['c', 'm', 'y', 'k', '(']);
        assert("%, "@ =~= seq!['%', ',', ' ']);
        assert("%)"@ =~= seq!['%', ')']);
        append_decimal(&mut text, percent_of(max - self.r, max));
        text.append("%, ");
        append_decimal(&mut text, percent_of(max - self.g, max));
        text.append("%, ");
        append_decimal(&mut text, percent_of(max - self.b, max));
        text.append("%, ");
        append_decimal(&mut text, percent_of(255 - max, 255));
        text.append("%)");
        assert(text@ =~= self.spec_cmyk_text());
        text
    }
}

} // verus!
