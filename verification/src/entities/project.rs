//! Project-level data: logical resolution and the HUD value types.
use vstd::prelude::*;
use vstd::string::*;

use crate::shared::player_id::PlayerId;
use crate::shared::text::{
    lemma_trim_identity,
    char_utf8_width, is_ws, spec_trim, trim_bounds, utf8_len, utf8_width,
};

verus! {

/// Logical screen size in pixels that the scene camera shows.
#[derive(Debug, Clone, Copy, PartialEq, Eq, Structural)]
pub struct Resolution {
    pub width: u32,
    pub height: u32,
}

impl Default for Resolution {
    fn default() -> (r: Self)
        ensures
            r == (Resolution { width: 384, height: 216 }),
    {
        Resolution { width: 384, height: 216 }
    }
}

/// Reference point on the screen (or on another element's bounding box).
#[derive(Debug, Clone, Copy, PartialEq, Eq, Structural)]
pub enum HudAnchor {
    TopLeft,
    Top,
    TopRight,
    Left,
    Center,
    Right,
    BottomLeft,
    Bottom,
    BottomRight,
}

impl Default for HudAnchor {
    fn default() -> (r: Self)
        ensures
            r == HudAnchor::TopLeft,
    {
        HudAnchor::TopLeft
    }
}

/// An anchor on another HUD element, found by its `id`.
#[derive(Debug, Clone)]
pub struct HudElementAnchor {
    pub id: String,
    pub edge: HudAnchor,
}

/// Which enemy an enemy HP bar follows.
#[derive(Debug, Clone)]
pub enum EnemyTarget {
    /// The enemy that the given player hit last.
    LastEngagedBy(PlayerId),
    /// The first enemy whose character `tag` matches.
    Tag(String),
    /// The n-th enemy in spawn order (0-based).
    NthEnemy(usize),
}

impl Default for EnemyTarget {
    fn default() -> (r: Self)
        ensures
            r == EnemyTarget::LastEngagedBy(PlayerId::P1),
    {
        EnemyTarget::LastEngagedBy(PlayerId::P1)
    }
}

/// Vertical reference of an overhead HP bar.
#[derive(Debug, Clone, Copy, PartialEq, Eq, Structural)]
pub enum OverheadVerticalAnchor {
    Origin,
    ImageTop,
    ImageBottom,
}

impl Default for OverheadVerticalAnchor {
    fn default() -> (r: Self)
        ensures
            r == OverheadVerticalAnchor::ImageTop,
    {
        OverheadVerticalAnchor::ImageTop
    }
}

/// Direction in which a ring gauge is drawn.
#[derive(Debug, Clone, Copy, PartialEq, Eq, Structural)]
pub enum RingDirection {
    Clockwise,
    CounterClockwise,
}

impl Default for RingDirection {
    fn default() -> (r: Self)
        ensures
            r == RingDirection::Clockwise,
    {
        RingDirection::Clockwise
    }
}

/// Direction in which a bar gauge empties.
#[derive(Debug, Clone, Copy, PartialEq, Eq, Structural)]
pub enum FillDirection {
    LeftToRight,
    RightToLeft,
    TopToBottom,
    BottomToTop,
}

impl Default for FillDirection {
    fn default() -> (r: Self)
        ensures
            r == FillDirection::LeftToRight,
    {
        FillDirection::LeftToRight
    }
}

/// How an HP bar is split into gauges: a fixed number of gauges, or one
/// gauge per `n` HP.
#[derive(Debug, Clone, Copy, PartialEq, Eq, Structural)]
pub enum GaugeStep {
    FixedCount(u32),
    PerUnit(u32),
}

impl Default for GaugeStep {
    fn default() -> (r: Self)
        ensures
            r == GaugeStep::FixedCount(1),
    {
        GaugeStep::FixedCount(1)
    }
}

/// A color as `#RRGGBB` / `#RRGGBBAA` text in YAML. The default is opaque
/// black.
#[derive(Debug, Clone, Copy, PartialEq, Eq, Structural)]
pub struct HexColor {
    pub r: u8,
    pub g: u8,
    pub b: u8,
    pub a: u8,
}

impl Default for HexColor {
    fn default() -> (r: Self)
        ensures
            r == (HexColor { r: 0, g: 0, b: 0, a: 255 }),
    {
        HexColor { r: 0, g: 0, b: 0, a: 255 }
    }
}

/// Default background of HP bars and rings: black at alpha 153.
pub fn default_hp_bar_bg_color() -> (r: HexColor)
    ensures
        r == (HexColor { r: 0, g: 0, b: 0, a: 153 }),
{
    HexColor { r: 0, g: 0, b: 0, a: 153 }
}

/// Default fill of player HP bars and rings: red.
pub fn default_hp_bar_fg_color() -> (r: HexColor)
    ensures
        r == (HexColor { r: 229, g: 38, b: 38, a: 255 }),
{
    HexColor { r: 229, g: 38, b: 38, a: 255 }
}

/// Default fill of enemy HP bars: yellow.
pub fn default_enemy_hp_bar_fg_color() -> (r: HexColor)
    ensures
        r == (HexColor { r: 242, g: 216, b: 44, a: 255 }),
{
    HexColor { r: 242, g: 216, b: 44, a: 255 }
}

/// Default background of player icons: fully transparent.
pub fn default_icon_bg_color() -> (r: HexColor)
    ensures
        r == (HexColor { r: 0, g: 0, b: 0, a: 0 }),
{
    HexColor { r: 0, g: 0, b: 0, a: 0 }
}

/// Value of a hexadecimal digit (either case).
pub open spec fn hex_val(c: char) -> Option<u8> {
    let v = c as u32;
    if 0x30 <= v && v <= 0x39 {
        Some((v - 0x30) as u8)
    } else if 0x61 <= v && v <= 0x66 {
        Some((v - 0x61 + 10) as u8)
    } else if 0x41 <= v && v <= 0x46 {
        Some((v - 0x41 + 10) as u8)
    } else {
        None
    }
}

/// Whether `c` is a hexadecimal digit (`0-9`, `a-f`, `A-F`).
pub open spec fn is_hex_digit(c: char) -> bool {
    hex_val(c) is Some
}

/// The byte written by the `k`-th pair of hexadecimal digits of `body`.
pub open spec fn pair_value(body: Seq<char>, k: int) -> u8 {
    (hex_val(body[2 * k])->0 * 16 + hex_val(body[2 * k + 1])->0) as u8
}

pub open spec fn msg_missing_hash() -> Seq<char> {
    "color must start with '#': "@
}

pub open spec fn msg_invalid_digit() -> Seq<char> {
    "invalid hex digit: invalid digit found in string"@
}

pub open spec fn msg_bad_length() -> Seq<char> {
    "color must be #RRGGBB or #RRGGBBAA: "@
}

/// What `HexColor::parse` gives for `s`, with the error message as
/// characters: after trimming, the text must start with `#`, the part after
/// it must be 6 or 8 bytes long, and every character of that part must be a
/// hexadecimal digit; each pair of digits is then one channel, and alpha is
/// 255 when there are only three pairs.
pub open spec fn spec_parse_hex_color(s: Seq<char>) -> Result<HexColor, Seq<char>> {
    let t = spec_trim(s);
    if t.len() == 0 || t[0] != '#' {
        Err(msg_missing_hash() + t)
    } else {
        let body = t.drop_first();
        let blen = utf8_len(body);
        if blen != 6 && blen != 8 {
            Err(msg_bad_length() + t)
        } else if !(forall|i: int| 0 <= i < body.len() ==> is_hex_digit(#[trigger] body[i])) {
            Err(msg_invalid_digit())
        } else {
            Ok(
                HexColor {
                    r: pair_value(body, 0),
                    g: pair_value(body, 1),
                    b: pair_value(body, 2),
                    a: if blen == 8 { pair_value(body, 3) } else { 255 },
                },
            )
        }
    }
}

/// The UTF-8 length of a suffix splits off its first character.
pub proof fn lemma_utf8_len_skip(s: Seq<char>, j: int)
    requires
        0 <= j < s.len(),
    ensures
        utf8_len(s.skip(j)) == utf8_width(s[j]) + utf8_len(s.skip(j + 1)),
{
    assert(s.skip(j).drop_first() =~= s.skip(j + 1));
}

/// Value of a hexadecimal digit.
pub fn hex_digit_value(c: char) -> (r: Option<u8>)
    ensures
        r == hex_val(c),
{
    let v = c as u32;
    if 0x30 <= v && v <= 0x39 {
        Some((v - 0x30) as u8)
    } else if 0x61 <= v && v <= 0x66 {
        Some((v - 0x61 + 10) as u8)
    } else if 0x41 <= v && v <= 0x46 {
        Some((v - 0x41 + 10) as u8)
    } else {
        None
    }
}

impl HexColor {
    /// Parses `#RRGGBB` (alpha 255) or `#RRGGBBAA` after trimming surrounding
    /// whitespace. Fails when the text does not start with `#`, when the part
    /// after `#` is not 6 or 8 bytes long, or when a character of that part
    /// is not a hexadecimal digit.
    pub fn parse(s: &str) -> (r: Result<HexColor, String>)
        ensures
            match r {
                Ok(c) => spec_parse_hex_color(s@) == Ok::<HexColor, Seq<char>>(c),
                Err(e) => spec_parse_hex_color(s@) == Err::<HexColor, Seq<char>>(e@),
            },
            // Accepted exactly when the trimmed text is `#` and six or eight
            // hexadecimal digits; the digits are read in pairs, red first,
            // and alpha is 255 without a fourth pair.
            r is Ok <==> hex_color_shape(spec_trim(s@)),
            r matches Ok(c) ==> ({
                let t = spec_trim(s@);
                &&& c.r == 16 * hex_val(t[1])->0 + hex_val(t[2])->0
                &&& c.g == 16 * hex_val(t[3])->0 + hex_val(t[4])->0
                &&& c.b == 16 * hex_val(t[5])->0 + hex_val(t[6])->0
                &&& c.a == (if t.len() == 9 { 16 * hex_val(t[7])->0 + hex_val(t[8])->0 } else { 255 })
            }),
    {
        proof {
            lemma_parse_hex_color_shape(s@);
        }
        let (a, b) = trim_bounds(s);
        let t = s.substring_char(a, b);
        let tlen = b - a;
        if tlen == 0 || t.get_char(0) != '#' {
            let mut m = String::from_str("color must start with '#': ");
            m.append(t);
            return Err(m);
        }
        let ghost body = t@.drop_first();
        let mut acc: usize = 0;
        let mut i: usize = 1;
        proof {
            assert(body.skip(0) =~= body);
        }
        while i < tlen && acc <= 8
            invariant
                1 <= i <= tlen,
                tlen == t@.len(),
                body == t@.drop_first(),
                acc <= 12,
                acc + utf8_len(body.skip(i - 1)) == utf8_len(body),
            decreases tlen - i,
        {
            let c = t.get_char(i);
            proof {
                lemma_utf8_len_skip(body, i - 1);
                assert(body[i - 1] == c);
            }
            acc = acc + char_utf8_width(c);
            i = i + 1;
        }
        proof {
            if i == tlen {
                assert(body.skip(i - 1).len() == 0);
            }
        }
        if !(i == tlen && (acc == 6 || acc == 8)) {
            let mut m = String::from_str("color must be #RRGGBB or #RRGGBBAA: ");
            m.append(t);
            return Err(m);
        }
        let mut j: usize = 1;
        while j < tlen
            invariant
                1 <= j <= tlen,
                tlen == t@.len(),
                body == t@.drop_first(),
                forall|x: int| 0 <= x < j - 1 ==> is_hex_digit(#[trigger] body[x]),
                t@ == spec_trim(s@),
                t@[0] == '#',
                acc == utf8_len(body),
                acc == 6 || acc == 8,
            decreases tlen - j,
        {
            let c = t.get_char(j);
            proof {
                assert(body[j - 1] == c);
            }
            if hex_digit_value(c).is_none() {
                proof {
                    reveal_strlit("invalid hex digit: invalid digit found in string");
                    assert(!is_hex_digit(body[j - 1]));
                }
                return Err(String::from_str("invalid hex digit: invalid digit found in string"));
            }
            j = j + 1;
        }
        proof {
            assert forall|x: int| 0 <= x < body.len() implies utf8_width(#[trigger] body[x]) == 1 by {
                assert(is_hex_digit(body[x]));
            }
            lemma_utf8_len_ascii(body);
        }
        let r = hex_pair(&t, 0);
        let g = hex_pair(&t, 1);
        let bl = hex_pair(&t, 2);
        if acc == 8 {
            let al = hex_pair(&t, 3);
            Ok(HexColor { r, g, b: bl, a: al })
        } else {
            Ok(HexColor { r, g, b: bl, a: 255 })
        }
    }
}

/// `#` followed by six or eight hexadecimal digits.
pub open spec fn hex_color_shape(t: Seq<char>) -> bool {
    &&& t.len() == 7 || t.len() == 9
    &&& t[0] == '#'
    &&& forall|i: int| 1 <= i < t.len() ==> is_hex_digit(#[trigger] t[i])
}

proof fn lemma_parse_hex_color_shape(s: Seq<char>)
    ensures
        spec_parse_hex_color(s) is Ok <==> hex_color_shape(spec_trim(s)),
        spec_parse_hex_color(s) matches Ok(c) ==> ({
            let t = spec_trim(s);
            &&& c.r == 16 * hex_val(t[1])->0 + hex_val(t[2])->0
            &&& c.g == 16 * hex_val(t[3])->0 + hex_val(t[4])->0
            &&& c.b == 16 * hex_val(t[5])->0 + hex_val(t[6])->0
            &&& c.a == (if t.len() == 9 { 16 * hex_val(t[7])->0 + hex_val(t[8])->0 } else { 255 })
        }),
{
    let t = spec_trim(s);
    if t.len() > 0 && t[0] == '#' {
        let body = t.drop_first();
        if forall|i: int| 0 <= i < body.len() ==> is_hex_digit(#[trigger] body[i]) {
            assert forall|i: int| 0 <= i < body.len() implies utf8_width(#[trigger] body[i]) == 1 by {
                assert(is_hex_digit(body[i]));
            }
            lemma_utf8_len_ascii(body);
            assert forall|i: int| 1 <= i < t.len() implies is_hex_digit(#[trigger] t[i]) by {
                assert(t[i] == body[i - 1]);
            }
        }
        if hex_color_shape(t) {
            assert forall|i: int| 0 <= i < body.len() implies is_hex_digit(#[trigger] body[i]) by {
                assert(t[i + 1] == body[i]);
            }
        }
        if spec_parse_hex_color(s) is Ok {
            assert forall|i: int| 0 <= i < body.len() implies #[trigger] body[i] == t[i + 1] by {}
            assert(hex_val(body[0]) is Some && hex_val(body[1]) is Some);
        }
    }
}

/// The `k`-th digit pair after the leading `#` of `t`.
fn hex_pair(t: &str, k: usize) -> (r: u8)
    requires
        k <= 3,
        2 * k + 2 < t@.len(),
        is_hex_digit(t@[2 * k + 1]),
        is_hex_digit(t@[2 * k + 2]),
    ensures
        r == pair_value(t@.drop_first(), k as int),
{
    let h = hex_digit_value(t.get_char(1 + 2 * k)).unwrap();
    let l = hex_digit_value(t.get_char(2 + 2 * k)).unwrap();
    h * 16 + l
}

/// Whether `c` is `0`-`9` or `a`-`f`.
pub open spec fn is_lower_hex(c: char) -> bool {
    (48 <= c as u32 <= 57) || (97 <= c as u32 <= 102)
}

/// Lowercase hexadecimal digit for `n < 16`.
pub open spec fn hex_digit_char(n: u8) -> char {
    if n < 10 {
        (48 + n) as char
    } else {
        (87 + n) as char
    }
}

/// Two lowercase hexadecimal digits of a byte.
pub open spec fn byte_hex(v: u8) -> Seq<char> {
    seq![hex_digit_char(v / 16), hex_digit_char(v % 16)]
}

/// `#rrggbb` for an opaque color, `#rrggbbaa` otherwise.
pub open spec fn spec_hex_string(c: HexColor) -> Seq<char> {
    seq!['#'] + byte_hex(c.r) + byte_hex(c.g) + byte_hex(c.b) + (if c.a == 255 {
        Seq::empty()
    } else {
        byte_hex(c.a)
    })
}

fn hex_digit_str(n: u8) -> (r: &'static str)
    requires
        n < 16,
    ensures
        r@ == seq![hex_digit_char(n)],
{
    match n {
        0 => {
            proof {
                reveal_strlit("0");
            }
            "0"
        },
        1 => {
            proof {
                reveal_strlit("1");
            }
            "1"
        },
        2 => {
            proof {
                reveal_strlit("2");
            }
            "2"
        },
        3 => {
            proof {
                reveal_strlit("3");
            }
            "3"
        },
        4 => {
            proof {
                reveal_strlit("4");
            }
            "4"
        },
        5 => {
            proof {
                reveal_strlit("5");
            }
            "5"
        },
        6 => {
            proof {
                reveal_strlit("6");
            }
            "6"
        },
        7 => {
            proof {
                reveal_strlit("7");
            }
            "7"
        },
        8 => {
            proof {
                reveal_strlit("8");
            }
            "8"
        },
        9 => {
            proof {
                reveal_strlit("9");
            }
            "9"
        },
        10 => {
            proof {
                reveal_strlit("a");
            }
            "a"
        },
        11 => {
            proof {
                reveal_strlit("b");
            }
            "b"
        },
        12 => {
            proof {
                reveal_strlit("c");
            }
            "c"
        },
        13 => {
            proof {
                reveal_strlit("d");
            }
            "d"
        },
        14 => {
            proof {
                reveal_strlit("e");
            }
            "e"
        },
        _ => {
            proof {
                reveal_strlit("f");
            }
            "f"
        },
    }
}

fn push_byte_hex(out: &mut String, v: u8)
    ensures
        final(out)@ == old(out)@ + byte_hex(v),
{
    out.append(hex_digit_str(v / 16));
    out.append(hex_digit_str(v % 16));
    assert(final(out)@ =~= old(out)@ + byte_hex(v));
}

impl HexColor {
    /// Formats as `#rrggbb` when alpha is 255, else `#rrggbbaa` (lowercase).
    pub fn to_hex_string(self) -> (r: String)
        ensures
            r@ == spec_hex_string(self),
            // `#`, then six digits, or eight when not opaque; every digit is a
            // lowercase hexadecimal one; and parsing the text gives the color
            // back.
            r@.len() == (if self.a == 255 { 7int } else { 9int }),
            r@[0] == '#',
            forall|i: int| 1 <= i < r@.len() ==> is_lower_hex(#[trigger] r@[i]),
            spec_parse_hex_color(r@) == Ok::<HexColor, Seq<char>>(self),
    {
        let mut out = String::from_str("#");
        proof {
            reveal_strlit("#");
        }
        push_byte_hex(&mut out, self.r);
        push_byte_hex(&mut out, self.g);
        push_byte_hex(&mut out, self.b);
        if self.a != 255 {
            push_byte_hex(&mut out, self.a);
        }
        assert(out@ =~= spec_hex_string(self));
        proof {
            lemma_hex_color_round_trip(self);
            lemma_hex_string_lower(self);
        }
        out
    }
}

/// A character sequence of ASCII characters has one byte per character.
pub proof fn lemma_utf8_len_ascii(s: Seq<char>)
    requires
        forall|i: int| 0 <= i < s.len() ==> utf8_width(#[trigger] s[i]) == 1,
    ensures
        utf8_len(s) == s.len(),
    decreases s.len(),
{
    if s.len() > 0 {
        let t = s.drop_first();
        assert forall|i: int| 0 <= i < t.len() implies utf8_width(#[trigger] t[i]) == 1 by {
            assert(t[i] == s[i + 1]);
        }
        lemma_utf8_len_ascii(t);
    }
}

proof fn lemma_byte_hex_decodes(v: u8)
    ensures
        hex_val(hex_digit_char(v / 16)) == Some((v / 16) as u8),
        hex_val(hex_digit_char(v % 16)) == Some((v % 16) as u8),
        (((v / 16) as u8) * 16 + (v % 16) as u8) as u8 == v,
        utf8_width(hex_digit_char(v / 16)) == 1,
        utf8_width(hex_digit_char(v % 16)) == 1,
        !is_ws(hex_digit_char(v % 16)),
{
    let h = v / 16;
    let l = v % 16;
    assert(hex_val(hex_digit_char(h)) == Some(h));
    assert(hex_val(hex_digit_char(l)) == Some(l));
}

/// Parsing the text that `to_hex_string` writes gives back the same color.
pub proof fn lemma_hex_color_round_trip(c: HexColor)
    ensures
        spec_parse_hex_color(spec_hex_string(c)) == Ok::<HexColor, Seq<char>>(c),
{
    let s = spec_hex_string(c);
    lemma_byte_hex_decodes(c.r);
    lemma_byte_hex_decodes(c.g);
    lemma_byte_hex_decodes(c.b);
    lemma_byte_hex_decodes(c.a);
    let last = if c.a == 255 { c.b } else { c.a };
    assert(s.last() == hex_digit_char(last % 16));
    lemma_trim_identity(s);
    let body = s.drop_first();
    assert(body[0] == hex_digit_char(c.r / 16) && body[1] == hex_digit_char(c.r % 16));
    assert(body[2] == hex_digit_char(c.g / 16) && body[3] == hex_digit_char(c.g % 16));
    assert(body[4] == hex_digit_char(c.b / 16) && body[5] == hex_digit_char(c.b % 16));
    if c.a != 255 {
        assert(body[6] == hex_digit_char(c.a / 16) && body[7] == hex_digit_char(c.a % 16));
    }
    assert forall|i: int| 0 <= i < body.len() implies is_hex_digit(#[trigger] body[i]) && utf8_width(body[i]) == 1 by {
        if i == 0 || i == 2 || i == 4 || i == 6 {
        }
    }
    assert(forall|i: int| 0 <= i < body.len() ==> utf8_width(#[trigger] body[i]) == 1);
    lemma_utf8_len_ascii(body);
    assert(pair_value(body, 0) == c.r);
    assert(pair_value(body, 1) == c.g);
    assert(pair_value(body, 2) == c.b);
    if c.a != 255 {
        assert(pair_value(body, 3) == c.a);
    }
}

proof fn lemma_hex_digit_lower(n: u8)
    requires
        n < 16,
    ensures
        is_lower_hex(hex_digit_char(n)),
{
}

proof fn lemma_hex_string_lower(c: HexColor)
    ensures
        spec_hex_string(c).len() == (if c.a == 255 { 7int } else { 9int }),
        spec_hex_string(c)[0] == '#',
        forall|i: int| 1 <= i < spec_hex_string(c).len() ==> is_lower_hex(#[trigger] spec_hex_string(c)[i]),
{
    let s = spec_hex_string(c);
    lemma_hex_digit_lower(c.r / 16);
    lemma_hex_digit_lower(c.r % 16);
    lemma_hex_digit_lower(c.g / 16);
    lemma_hex_digit_lower(c.g % 16);
    lemma_hex_digit_lower(c.b / 16);
    lemma_hex_digit_lower(c.b % 16);
    lemma_hex_digit_lower(c.a / 16);
    lemma_hex_digit_lower(c.a % 16);
    assert(s[1] == hex_digit_char(c.r / 16) && s[2] == hex_digit_char(c.r % 16));
    assert(s[3] == hex_digit_char(c.g / 16) && s[4] == hex_digit_char(c.g % 16));
    assert(s[5] == hex_digit_char(c.b / 16) && s[6] == hex_digit_char(c.b % 16));
    if c.a != 255 {
        assert(s[7] == hex_digit_char(c.a / 16) && s[8] == hex_digit_char(c.a % 16));
    }
}

} // verus!
