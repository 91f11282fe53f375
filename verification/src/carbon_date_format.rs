use vstd::prelude::*;
use crate::digits::{digit_str, digit_val, is_digit, spec_digit_char, spec_digit_val, spec_is_digit};

verus! {

/// A minute-resolution UTC instant as the data source writes it:
/// `YYYY-MM-DDTHH:MMZ`. Held as plain calendar fields; the pipeline only
/// carries these values through, it never does arithmetic on them.
#[derive(Clone, Copy, Debug, PartialEq, Eq, Structural)]
pub struct Timestamp {
    pub year: u32,
    pub month: u32,
    pub day: u32,
    pub hour: u32,
    pub minute: u32,
}

pub open spec fn spec_is_leap_year(y: nat) -> bool {
    y % 4 == 0 && (y % 100 != 0 || y % 400 == 0)
}

pub open spec fn spec_days_in_month(y: nat, m: nat) -> nat {
    if m == 2 {
        if spec_is_leap_year(y) {
            29
        } else {
            28
        }
    } else if m == 4 || m == 6 || m == 9 || m == 11 {
        30
    } else {
        31
    }
}

impl Timestamp {
    /// A calendar-valid instant that the four-digit year field can render.
    pub open spec fn valid(self) -> bool {
        &&& self.year <= 9999
        &&& 1 <= self.month <= 12
        &&& 1 <= self.day <= spec_days_in_month(self.year as nat, self.month as nat)
        &&& self.hour < 24
        &&& self.minute < 60
    }
}

/// Two decimal digits, zero padded, of `n % 100`.
pub open spec fn spec_pad2(n: nat) -> Seq<char> {
    seq![spec_digit_char(n / 10 % 10), spec_digit_char(n % 10)]
}

/// Four decimal digits, zero padded, of `n % 10000`.
pub open spec fn spec_pad4(n: nat) -> Seq<char> {
    seq![
        spec_digit_char(n / 1000 % 10),
        spec_digit_char(n / 100 % 10),
        spec_digit_char(n / 10 % 10),
        spec_digit_char(n % 10),
    ]
}

/// The source's fixed textual form of an instant.
pub open spec fn spec_render(t: Timestamp) -> Seq<char> {
    spec_pad4(t.year as nat) + seq!['-'] + spec_pad2(t.month as nat) + seq!['-'] + spec_pad2(
        t.day as nat,
    ) + seq!['T'] + spec_pad2(t.hour as nat) + seq![':'] + spec_pad2(t.minute as nat) + seq!['Z']
}

/// What `deserialize` accepts: a 17-character text in the fixed layout whose
/// fields make a calendar-valid instant.
pub open spec fn spec_parse(s: Seq<char>) -> Option<Timestamp> {
    if s.len() == 17 && spec_is_digit(s[0]) && spec_is_digit(s[1]) && spec_is_digit(s[2])
        && spec_is_digit(s[3]) && s[4] == '-' && spec_is_digit(s[5]) && spec_is_digit(s[6])
        && s[7] == '-' && spec_is_digit(s[8]) && spec_is_digit(s[9]) && s[10] == 'T'
        && spec_is_digit(s[11]) && spec_is_digit(s[12]) && s[13] == ':' && spec_is_digit(s[14])
        && spec_is_digit(s[15]) && s[16] == 'Z' {
        let t = Timestamp {
            year: (spec_digit_val(s[0]) * 1000 + spec_digit_val(s[1]) * 100 + spec_digit_val(s[2])
                * 10 + spec_digit_val(s[3])) as u32,
            month: (spec_digit_val(s[5]) * 10 + spec_digit_val(s[6])) as u32,
            day: (spec_digit_val(s[8]) * 10 + spec_digit_val(s[9])) as u32,
            hour: (spec_digit_val(s[11]) * 10 + spec_digit_val(s[12])) as u32,
            minute: (spec_digit_val(s[14]) * 10 + spec_digit_val(s[15])) as u32,
        };
        if t.valid() {
            Some(t)
        } else {
            None
        }
    } else {
        None
    }
}

proof fn lemma_digit_char_val(x: nat)
    requires
        x < 10,
    ensures
        spec_is_digit(spec_digit_char(x)),
        spec_digit_val(spec_digit_char(x)) == x,
{
}

/// Rendering a valid instant and reading the text back restores the instant
/// exactly.
pub proof fn law_render_parse_round_trip(t: Timestamp)
    requires
        t.valid(),
    ensures
        spec_parse(spec_render(t)) == Some(t),
{
    let y = t.year as nat;
    let mo = t.month as nat;
    let d = t.day as nat;
    let h = t.hour as nat;
    let mi = t.minute as nat;
    lemma_digit_char_val(y / 1000 % 10);
    lemma_digit_char_val(y / 100 % 10);
    lemma_digit_char_val(y / 10 % 10);
    lemma_digit_char_val(y % 10);
    lemma_digit_char_val(mo / 10 % 10);
    lemma_digit_char_val(mo % 10);
    lemma_digit_char_val(d / 10 % 10);
    lemma_digit_char_val(d % 10);
    lemma_digit_char_val(h / 10 % 10);
    lemma_digit_char_val(h % 10);
    lemma_digit_char_val(mi / 10 % 10);
    lemma_digit_char_val(mi % 10);
    let s = spec_render(t);
    assert(s =~= seq![
        spec_digit_char(y / 1000 % 10),
        spec_digit_char(y / 100 % 10),
        spec_digit_char(y / 10 % 10),
        spec_digit_char(y % 10),
        '-',
        spec_digit_char(mo / 10 % 10),
        spec_digit_char(mo % 10),
        '-',
        spec_digit_char(d / 10 % 10),
        spec_digit_char(d % 10),
        'T',
        spec_digit_char(h / 10 % 10),
        spec_digit_char(h % 10),
        ':',
        spec_digit_char(mi / 10 % 10),
        spec_digit_char(mi % 10),
        'Z',
    ]);
    assert(y / 1000 % 10 == y / 1000);
    assert(y / 100 == (y / 1000) * 10 + y / 100 % 10);
    assert(y / 10 == (y / 100) * 10 + y / 10 % 10);
    assert(y == (y / 10) * 10 + y % 10);
    assert(y == (y / 1000 % 10) * 1000 + (y / 100 % 10) * 100 + (y / 10 % 10) * 10 + y % 10);
    assert(mo == (mo / 10 % 10) * 10 + mo % 10);
    assert(d == (d / 10 % 10) * 10 + d % 10);
    assert(h == (h / 10 % 10) * 10 + h % 10);
    assert(mi == (mi / 10 % 10) * 10 + mi % 10);
}

proof fn lemma_digit_val_char(c: char)
    requires
        spec_is_digit(c),
    ensures
        spec_digit_char(spec_digit_val(c)) == c,
{
    if spec_digit_val(c) == 0 {
        assert(c as int == '0' as int);
        assert(c == '0');
    } else if spec_digit_val(c) == 1 {
        assert(c == '1');
    } else if spec_digit_val(c) == 2 {
        assert(c == '2');
    } else if spec_digit_val(c) == 3 {
        assert(c == '3');
    } else if spec_digit_val(c) == 4 {
        assert(c == '4');
    } else if spec_digit_val(c) == 5 {
        assert(c == '5');
    } else if spec_digit_val(c) == 6 {
        assert(c == '6');
    } else if spec_digit_val(c) == 7 {
        assert(c == '7');
    } else if spec_digit_val(c) == 8 {
        assert(c == '8');
    } else {
        assert(c == '9');
    }
}

/// Reading a well-formed text and rendering the instant again restores the
/// text exactly: the fixed layout writes each instant one way only.
pub proof fn law_parse_render_round_trip(s: Seq<char>)
    requires
        spec_parse(s) is Some,
    ensures
        spec_render(spec_parse(s).unwrap()) == s,
{
    let t = spec_parse(s).unwrap();
    lemma_digit_val_char(s[0]);
    lemma_digit_val_char(s[1]);
    lemma_digit_val_char(s[2]);
    lemma_digit_val_char(s[3]);
    lemma_digit_val_char(s[5]);
    lemma_digit_val_char(s[6]);
    lemma_digit_val_char(s[8]);
    lemma_digit_val_char(s[9]);
    lemma_digit_val_char(s[11]);
    lemma_digit_val_char(s[12]);
    lemma_digit_val_char(s[14]);
    lemma_digit_val_char(s[15]);
    let y = t.year as nat;
    let d0 = spec_digit_val(s[0]);
    let d1 = spec_digit_val(s[1]);
    let d2 = spec_digit_val(s[2]);
    let d3 = spec_digit_val(s[3]);
    assert(y == d0 * 1000 + d1 * 100 + d2 * 10 + d3);
    assert(y / 1000 == d0 && y / 1000 % 10 == d0);
    assert(y / 100 == d0 * 10 + d1 && y / 100 % 10 == d1);
    assert(y / 10 == d0 * 100 + d1 * 10 + d2 && y / 10 % 10 == d2);
    assert(y % 10 == d3);
    let mo = t.month as nat;
    assert(mo / 10 % 10 == spec_digit_val(s[5]) && mo % 10 == spec_digit_val(s[6]));
    let d = t.day as nat;
    assert(d / 10 % 10 == spec_digit_val(s[8]) && d % 10 == spec_digit_val(s[9]));
    let h = t.hour as nat;
    assert(h / 10 % 10 == spec_digit_val(s[11]) && h % 10 == spec_digit_val(s[12]));
    let mi = t.minute as nat;
    assert(mi / 10 % 10 == spec_digit_val(s[14]) && mi % 10 == spec_digit_val(s[15]));
    assert(spec_render(t) =~= s);
}

fn days_in_month(y: u32, m: u32) -> (r: u32)
    ensures
        r == spec_days_in_month(y as nat, m as nat),
{
    if m == 2 {
        if y % 4 == 0 && (y % 100 != 0 || y % 400 == 0) {
            29
        } else {
            28
        }
    } else if m == 4 || m == 6 || m == 9 || m == 11 {
        30
    } else {
        31
    }
}

/// Renders an instant in the source's fixed layout.
pub fn serialize(t: &Timestamp) -> (r: String)
    ensures
        r@ == spec_render(*t),
{
    let mut s = String::new();
    s.append(digit_str(t.year / 1000 % 10));
    s.append(digit_str(t.year / 100 % 10));
    s.append(digit_str(t.year / 10 % 10));
    s.append(digit_str(t.year % 10));
    s.append("-");
    s.append(digit_str(t.month / 10 % 10));
    s.append(digit_str(t.month % 10));
    s.append("-");
    s.append(digit_str(t.day / 10 % 10));
    s.append(digit_str(t.day % 10));
    s.append("T");
    s.append(digit_str(t.hour / 10 % 10));
    s.append(digit_str(t.hour % 10));
    s.append(":");
    s.append(digit_str(t.minute / 10 % 10));
    s.append(digit_str(t.minute % 10));
    s.append("Z");
    proof {
        reveal_strlit("-");
        reveal_strlit("T");
        reveal_strlit(":");
        reveal_strlit("Z");
        assert(s@ =~= spec_render(*t));
    }
    s
}

/// Reads an instant from the source's fixed layout; anything else, or a
/// calendar-invalid instant, is refused.
pub fn deserialize(s: &str) -> (r: Option<Timestamp>)
    ensures
        r == spec_parse(s@),
{
    let n = s.unicode_len();
    if n != 17 {
        return None;
    }
    let c0 = s.get_char(0);
    let c1 = s.get_char(1);
    let c2 = s.get_char(2);
    let c3 = s.get_char(3);
    let c4 = s.get_char(4);
    let c5 = s.get_char(5);
    let c6 = s.get_char(6);
    let c7 = s.get_char(7);
    let c8 = s.get_char(8);
    let c9 = s.get_char(9);
    let c10 = s.get_char(10);
    let c11 = s.get_char(11);
    let c12 = s.get_char(12);
    let c13 = s.get_char(13);
    let c14 = s.get_char(14);
    let c15 = s.get_char(15);
    let c16 = s.get_char(16);
    if !(is_digit(c0) && is_digit(c1) && is_digit(c2) && is_digit(c3) && c4 == '-' && is_digit(c5)
        && is_digit(c6) && c7 == '-' && is_digit(c8) && is_digit(c9) && c10 == 'T' && is_digit(c11)
        && is_digit(c12) && c13 == ':' && is_digit(c14) && is_digit(c15) && c16 == 'Z') {
        return None;
    }
    let t = Timestamp {
        year: digit_val(c0) * 1000 + digit_val(c1) * 100 + digit_val(c2) * 10 + digit_val(c3),
        month: digit_val(c5) * 10 + digit_val(c6),
        day: digit_val(c8) * 10 + digit_val(c9),
        hour: digit_val(c11) * 10 + digit_val(c12),
        minute: digit_val(c14) * 10 + digit_val(c15),
    };
    let ok = t.year <= 9999 && 1 <= t.month && t.month <= 12 && 1 <= t.day && t.day
        <= days_in_month(t.year, t.month) && t.hour < 24 && t.minute < 60;
    if ok {
        Some(t)
    } else {
        None
    }
}

} // verus!
