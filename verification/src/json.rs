use vstd::prelude::*;
use crate::digits::{digit_val, spec_digit_val, spec_is_digit};

verus! {

broadcast use vstd::std_specs::vec::group_vec_axioms;

/// One node of a decoded document.
///
/// The grammar is the one the forecast endpoint emits: string contents are
/// plain characters and the short escapes (`\"`, `\\`, `\/`, `\n`, `\t`,
/// `\r`, `\b`, `\f`; the hexadecimal escape is refused), and a number is
/// kept as a plain unsigned integer only when it is an unsigned run of at
/// most fifteen digits with no fraction or exponent — every other numeric
/// form is carried as `NumOther` with its value dropped, since the pipeline
/// never reads such a value.
pub enum JsonValue {
    Null,
    Bool(bool),
    UInt(u64),
    NumOther,
    Str(String),
    Arr(Vec<JsonValue>),
    Obj(Vec<(String, JsonValue)>),
}

/// The mathematical shape of a `JsonValue`.
pub enum JsonNode {
    Null,
    Bool(bool),
    UInt(u64),
    NumOther,
    Str(Seq<char>),
    Arr(Seq<JsonNode>),
    Obj(Seq<(Seq<char>, JsonNode)>),
}

pub open spec fn node_of(v: JsonValue) -> JsonNode
    decreases v,
{
    match v {
        JsonValue::Null => JsonNode::Null,
        JsonValue::Bool(b) => JsonNode::Bool(b),
        JsonValue::UInt(n) => JsonNode::UInt(n),
        JsonValue::NumOther => JsonNode::NumOther,
        JsonValue::Str(s) => JsonNode::Str(s@),
        JsonValue::Arr(a) => JsonNode::Arr(nodes_of(a@)),
        JsonValue::Obj(m) => JsonNode::Obj(members_of(m@)),
    }
}

pub open spec fn nodes_of(vs: Seq<JsonValue>) -> Seq<JsonNode>
    decreases vs,
{
    Seq::new(
        vs.len(),
        |i: int|
            if 0 <= i < vs.len() {
                node_of(vs[i])
            } else {
                JsonNode::Null
            },
    )
}

pub open spec fn members_of(ms: Seq<(String, JsonValue)>) -> Seq<(Seq<char>, JsonNode)>
    decreases ms,
{
    Seq::new(
        ms.len(),
        |i: int|
            if 0 <= i < ms.len() {
                (ms[i].0@, node_of(ms[i].1))
            } else {
                (Seq::empty(), JsonNode::Null)
            },
    )
}

impl View for JsonValue {
    type V = JsonNode;

    open spec fn view(&self) -> JsonNode {
        node_of(*self)
    }
}

pub open spec fn spec_is_ws(c: char) -> bool {
    c == ' ' || c == '\t' || c == '\n' || c == '\r'
}

/// Index of the first non-whitespace character at or after `i`.
pub open spec fn sp_ws(s: Seq<char>, i: int) -> int
    decreases s.len() - i,
{
    if 0 <= i < s.len() && spec_is_ws(s[i]) {
        sp_ws(s, i + 1)
    } else {
        i
    }
}

/// The character denoted by a short escape after the backslash; `None` for
/// anything else, the hexadecimal escape included.
pub open spec fn sp_escape(c: char) -> Option<char> {
    if c == '"' {
        Some('"')
    } else if c == '\\' {
        Some('\\')
    } else if c == '/' {
        Some('/')
    } else if c == 'n' {
        Some('\n')
    } else if c == 't' {
        Some('\t')
    } else if c == 'r' {
        Some('\r')
    } else if c == 'b' {
        Some('\u{8}')
    } else if c == 'f' {
        Some('\u{c}')
    } else {
        None
    }
}

/// String contents from `i` (just past the opening quote): plain characters
/// and short escapes, up to the closing quote. Gives the denoted text and
/// the index just past the closing quote.
pub open spec fn sp_str_content(s: Seq<char>, i: int) -> Option<(Seq<char>, int)>
    decreases s.len() - i,
{
    if !(0 <= i < s.len()) {
        None
    } else if s[i] == '"' {
        Some((Seq::empty(), i + 1))
    } else if s[i] == '\\' {
        if i + 1 < s.len() {
            match sp_escape(s[i + 1]) {
                None => None,
                Some(c) => match sp_str_content(s, i + 2) {
                    None => None,
                    Some((rest, j)) => Some((seq![c] + rest, j)),
                },
            }
        } else {
            None
        }
    } else {
        match sp_str_content(s, i + 1) {
            None => None,
            Some((rest, j)) => Some((seq![s[i]] + rest, j)),
        }
    }
}

/// Index of the first non-digit at or after `i`.
pub open spec fn sp_digits_end(s: Seq<char>, i: int) -> int
    decreases s.len() - i,
{
    if 0 <= i < s.len() && spec_is_digit(s[i]) {
        sp_digits_end(s, i + 1)
    } else {
        i
    }
}

/// Value of the digit run `s[i .. j]`.
pub open spec fn sp_digits_val(s: Seq<char>, i: int, j: int) -> nat
    decreases j - i,
{
    if i >= j {
        0
    } else {
        sp_digits_val(s, i, j - 1) * 10 + spec_digit_val(s[j - 1])
    }
}

pub open spec fn spec_pow10(n: nat) -> nat
    decreases n,
{
    if n == 0 {
        1
    } else {
        10 * spec_pow10((n - 1) as nat)
    }
}

proof fn lemma_digits_val_bound(s: Seq<char>, i: int, j: int)
    requires
        i <= j,
        forall|k: int| i <= k < j ==> spec_is_digit(s[k]),
    ensures
        sp_digits_val(s, i, j) < spec_pow10((j - i) as nat),
    decreases j - i,
{
    if i >= j {
    } else {
        lemma_digits_val_bound(s, i, j - 1);
        assert(spec_is_digit(s[j - 1]));
        assert(spec_digit_val(s[j - 1]) <= 9);
    }
}

/// Index just past an exponent part at `i`, or `i` itself when none starts
/// there; `None` when an exponent marker is not followed by a digit.
pub open spec fn sp_exp_end(s: Seq<char>, i: int) -> Option<int> {
    if 0 <= i < s.len() && (s[i] == 'e' || s[i] == 'E') {
        let j: int = if i + 1 < s.len() && (s[i + 1] == '+' || s[i + 1] == '-') {
            i + 2
        } else {
            i + 1
        };
        let k: int = sp_digits_end(s, j);
        if k == j {
            None
        } else {
            Some(k)
        }
    } else {
        Some(i)
    }
}

/// A number token at `i`: optional sign, digits, optional fraction, optional
/// exponent. Only an unsigned bare run of at most fifteen digits becomes
/// `UInt`; every other accepted form becomes `NumOther`.
pub open spec fn sp_number(s: Seq<char>, i: int) -> Option<(JsonNode, int)> {
    let neg = 0 <= i < s.len() && s[i] == '-';
    let di: int = if neg {
        i + 1
    } else {
        i
    };
    let de: int = sp_digits_end(s, di);
    if de == di {
        None
    } else {
        let has_frac = de < s.len() && s[de] == '.';
        let fe: int = if has_frac {
            sp_digits_end(s, de + 1)
        } else {
            de
        };
        if has_frac && fe == de + 1 {
            None
        } else {
            match sp_exp_end(s, fe) {
                None => None,
                Some(end) => {
                    let node = if !neg && !has_frac && end == fe && de - di <= 15 {
                        JsonNode::UInt(sp_digits_val(s, di, de) as u64)
                    } else {
                        JsonNode::NumOther
                    };
                    Some((node, end))
                },
            }
        }
    }
}

/// A value at `i`: string, number, literal, array or object.
pub open spec fn sp_value(s: Seq<char>, i: int) -> Option<(JsonNode, int)>
    decreases s.len() - i, 0int,
{
    if !(0 <= i < s.len()) {
        None
    } else if s[i] == '"' {
        match sp_str_content(s, i + 1) {
            None => None,
            Some((content, j)) => {
                if !(i + 1 < j <= s.len()) {
                    None
                } else {
                    Some((JsonNode::Str(content), j))
                }
            },
        }
    } else if s[i] == '-' || spec_is_digit(s[i]) {
        sp_number(s, i)
    } else if s[i] == 't' {
        if s.len() - i >= 4 && s[i + 1] == 'r' && s[i + 2] == 'u' && s[i + 3] == 'e' {
            Some((JsonNode::Bool(true), i + 4))
        } else {
            None
        }
    } else if s[i] == 'f' {
        if s.len() - i >= 5 && s[i + 1] == 'a' && s[i + 2] == 'l' && s[i + 3] == 's' && s[i + 4]
            == 'e' {
            Some((JsonNode::Bool(false), i + 5))
        } else {
            None
        }
    } else if s[i] == 'n' {
        if s.len() - i >= 4 && s[i + 1] == 'u' && s[i + 2] == 'l' && s[i + 3] == 'l' {
            Some((JsonNode::Null, i + 4))
        } else {
            None
        }
    } else if s[i] == '[' {
        let j: int = sp_ws(s, i + 1);
        if !(i + 1 <= j <= s.len()) {
            None
        } else if j < s.len() && s[j] == ']' {
            Some((JsonNode::Arr(Seq::empty()), j + 1))
        } else {
            match sp_elems(s, j) {
                None => None,
                Some((es, k)) => Some((JsonNode::Arr(es), k)),
            }
        }
    } else if s[i] == '{' {
        let j: int = sp_ws(s, i + 1);
        if !(i + 1 <= j <= s.len()) {
            None
        } else if j < s.len() && s[j] == '}' {
            Some((JsonNode::Obj(Seq::empty()), j + 1))
        } else {
            match sp_members(s, j) {
                None => None,
                Some((ms, k)) => Some((JsonNode::Obj(ms), k)),
            }
        }
    } else {
        None
    }
}

/// One or more comma-separated values ending at `]`, the first starting
/// exactly at `i`.
pub open spec fn sp_elems(s: Seq<char>, i: int) -> Option<(Seq<JsonNode>, int)>
    decreases s.len() - i, 1int,
{
    if !(0 <= i <= s.len()) {
        None
    } else {
        match sp_value(s, i) {
            None => None,
            Some((v, j)) => {
                if !(i < j <= s.len()) {
                    None
                } else {
                    let k: int = sp_ws(s, j);
                    if !(j <= k <= s.len()) {
                        None
                    } else if k < s.len() && s[k] == ']' {
                        Some((seq![v], k + 1))
                    } else if k < s.len() && s[k] == ',' {
                        let m: int = sp_ws(s, k + 1);
                        if !(k + 1 <= m <= s.len()) {
                            None
                        } else {
                            match sp_elems(s, m) {
                                None => None,
                                Some((rest, end)) => Some((seq![v] + rest, end)),
                            }
                        }
                    } else {
                        None
                    }
                }
            },
        }
    }
}

/// One or more comma-separated `"key": value` pairs ending at `}`, the first
/// key starting exactly at `i`.
pub open spec fn sp_members(s: Seq<char>, i: int) -> Option<(Seq<(Seq<char>, JsonNode)>, int)>
    decreases s.len() - i, 1int,
{
    if !(0 <= i < s.len() && s[i] == '"') {
        None
    } else {
        match sp_str_content(s, i + 1) {
            None => None,
            Some((key, e)) => {
                if !(i + 1 < e <= s.len()) {
                    None
                } else {
                    let c: int = sp_ws(s, e);
                    if !(e <= c <= s.len() && c < s.len() && s[c] == ':') {
                        None
                    } else {
                        let vs: int = sp_ws(s, c + 1);
                        if !(c + 1 <= vs <= s.len()) {
                            None
                        } else {
                            match sp_value(s, vs) {
                                None => None,
                                Some((v, j)) => {
                                    if !(vs < j <= s.len()) {
                                        None
                                    } else {
                                        let k: int = sp_ws(s, j);
                                        if !(j <= k <= s.len()) {
                                            None
                                        } else if k < s.len() && s[k] == '}' {
                                            Some((seq![(key, v)], k + 1))
                                        } else if k < s.len() && s[k] == ',' {
                                            let m: int = sp_ws(s, k + 1);
                                            if !(k + 1 <= m <= s.len() && i < m) {
                                                None
                                            } else {
                                                match sp_members(s, m) {
                                                    None => None,
                                                    Some((rest, end)) => Some(
                                                        (seq![(key, v)] + rest, end),
                                                    ),
                                                }
                                            }
                                        } else {
                                            None
                                        }
                                    }
                                },
                            }
                        }
                    }
                }
            },
        }
    }
}

/// A whole document: one value, surrounded by whitespace only.
pub open spec fn sp_document(s: Seq<char>) -> Option<JsonNode> {
    let i: int = sp_ws(s, 0);
    if !(0 <= i <= s.len()) {
        None
    } else {
        match sp_value(s, i) {
            None => None,
            Some((v, j)) => {
                if j <= s.len() && sp_ws(s, j) == s.len() {
                    Some(v)
                } else {
                    None
                }
            },
        }
    }
}

fn is_ws(c: char) -> (r: bool)
    ensures
        r == spec_is_ws(c),
{
    c == ' ' || c == '\t' || c == '\n' || c == '\r'
}

fn skip_ws(s: &str, i: usize) -> (r: usize)
    requires
        i <= s@.len(),
    ensures
        r as int == sp_ws(s@, i as int),
        i <= r <= s@.len(),
    decreases s@.len() - i,
{
    if i < s.unicode_len() && is_ws(s.get_char(i)) {
        skip_ws(s, i + 1)
    } else {
        i
    }
}

fn p_str_content(s: &str, i: usize) -> (r: Option<(String, usize)>)
    requires
        i <= s@.len(),
    ensures
        match r {
            Some((content, j)) => sp_str_content(s@, i as int) == Some((content@, j as int)) && i
                < j <= s@.len(),
            None => sp_str_content(s@, i as int) is None,
        },
    decreases s@.len() - i,
{
    let n = s.unicode_len();
    if i >= n {
        return None;
    }
    let c = s.get_char(i);
    if c == '"' {
        Some((String::new(), i + 1))
    } else if c == '\\' {
        if i + 1 < n {
            let e = s.get_char(i + 1);
            let piece: &str = if e == '"' {
                "\""
            } else if e == '\\' {
                "\\"
            } else if e == '/' {
                "/"
            } else if e == 'n' {
                "\n"
            } else if e == 't' {
                "\t"
            } else if e == 'r' {
                "\r"
            } else if e == 'b' {
                "\u{8}"
            } else if e == 'f' {
                "\u{c}"
            } else {
                return None;
            };
            proof {
                reveal_strlit("\"");
                reveal_strlit("\\");
                reveal_strlit("/");
                reveal_strlit("\n");
                reveal_strlit("\t");
                reveal_strlit("\r");
                reveal_strlit("\u{8}");
                reveal_strlit("\u{c}");
                assert(piece@.len() == 1);
                assert(sp_escape(s@[i as int + 1]) == Some(piece@[0]));
                assert(piece@ =~= seq![piece@[0]]);
            }
            match p_str_content(s, i + 2) {
                None => None,
                Some((rest, j)) => {
                    let ghost rest_view = rest@;
                    let mut out: String = piece.to_owned();
                    out.append(rest.as_str());
                    proof {
                        assert(out@ =~= seq![piece@[0]] + rest_view);
                    }
                    Some((out, j))
                },
            }
        } else {
            None
        }
    } else {
        match p_str_content(s, i + 1) {
            None => None,
            Some((rest, j)) => {
                let ghost rest_view = rest@;
                let mut out: String = s.substring_char(i, i + 1).to_owned();
                out.append(rest.as_str());
                proof {
                    assert(out@ =~= seq![s@[i as int]] + rest_view);
                }
                Some((out, j))
            },
        }
    }
}

fn digits_end(s: &str, i: usize) -> (r: usize)
    requires
        i <= s@.len(),
    ensures
        r as int == sp_digits_end(s@, i as int),
        i <= r <= s@.len(),
        forall|k: int| i <= k < r ==> spec_is_digit(s@[k]),
    decreases s@.len() - i,
{
    if i < s.unicode_len() && crate::digits::is_digit(s.get_char(i)) {
        digits_end(s, i + 1)
    } else {
        i
    }
}

fn digits_val(s: &str, i: usize, j: usize) -> (r: u64)
    requires
        i <= j <= s@.len(),
        j - i <= 15,
        forall|k: int| i <= k < j ==> spec_is_digit(s@[k]),
    ensures
        r as nat == sp_digits_val(s@, i as int, j as int),
    decreases j - i,
{
    proof {
        lemma_digits_val_bound(s@, i as int, j as int);
        reveal_with_fuel(spec_pow10, 16);
        assert(spec_pow10(15) == 1000000000000000nat);
        assert(sp_digits_val(s@, i as int, j as int) < 1000000000000000nat);
    }
    if i >= j {
        0
    } else {
        proof {
            lemma_digits_val_bound(s@, i as int, j as int - 1);
            assert(sp_digits_val(s@, i as int, j as int - 1) < spec_pow10(15));
        }
        let hi = digits_val(s, i, j - 1);
        hi * 10 + digit_val(s.get_char(j - 1)) as u64
    }
}

fn exp_end(s: &str, i: usize) -> (r: Option<usize>)
    requires
        i <= s@.len(),
    ensures
        match r {
            Some(e) => sp_exp_end(s@, i as int) == Some(e as int) && i <= e <= s@.len(),
            None => sp_exp_end(s@, i as int) is None,
        },
{
    let n = s.unicode_len();
    if i < n && { let c = s.get_char(i); c == 'e' || c == 'E' } {
        let j: usize = if i + 1 < n && {
            let c = s.get_char(i + 1);
            c == '+' || c == '-'
        } {
            i + 2
        } else {
            i + 1
        };
        let k = digits_end(s, j);
        if k == j {
            None
        } else {
            Some(k)
        }
    } else {
        Some(i)
    }
}

fn p_number(s: &str, i: usize) -> (r: Option<(JsonValue, usize)>)
    requires
        i < s@.len(),
        s@[i as int] == '-' || spec_is_digit(s@[i as int]),
    ensures
        match r {
            Some((v, j)) => sp_number(s@, i as int) == Some((v@, j as int)) && i < j <= s@.len(),
            None => sp_number(s@, i as int) is None,
        },
{
    let n = s.unicode_len();
    let neg = s.get_char(i) == '-';
    let di: usize = if neg {
        i + 1
    } else {
        i
    };
    let de = digits_end(s, di);
    if de == di {
        return None;
    }
    let has_frac = de < n && s.get_char(de) == '.';
    let fe: usize = if has_frac {
        digits_end(s, de + 1)
    } else {
        de
    };
    if has_frac && fe == de + 1 {
        return None;
    }
    match exp_end(s, fe) {
        None => None,
        Some(end) => {
            let v = if !neg && !has_frac && end == fe && de - di <= 15 {
                proof {
                    lemma_digits_val_bound(s@, di as int, de as int);
                    reveal_with_fuel(spec_pow10, 16);
                    assert(spec_pow10(15) == 1000000000000000nat);
                }
                JsonValue::UInt(digits_val(s, di, de))
            } else {
                JsonValue::NumOther
            };
            Some((v, end))
        },
    }
}

fn p_value(s: &str, i: usize) -> (r: Option<(JsonValue, usize)>)
    requires
        i <= s@.len(),
    ensures
        match r {
            Some((v, j)) => sp_value(s@, i as int) == Some((v@, j as int)) && i < j <= s@.len(),
            None => sp_value(s@, i as int) is None,
        },
    decreases s@.len() - i, 0int,
{
    let n = s.unicode_len();
    if i >= n {
        return None;
    }
    let c = s.get_char(i);
    if c == '"' {
        match p_str_content(s, i + 1) {
            None => None,
            Some((content, j)) => Some((JsonValue::Str(content), j)),
        }
    } else if c == '-' || ('0' <= c && c <= '9') {
        p_number(s, i)
    } else if c == 't' {
        if n - i >= 4 && s.get_char(i + 1) == 'r' && s.get_char(i + 2) == 'u' && s.get_char(i + 3)
            == 'e' {
            Some((JsonValue::Bool(true), i + 4))
        } else {
            None
        }
    } else if c == 'f' {
        if n - i >= 5 && s.get_char(i + 1) == 'a' && s.get_char(i + 2) == 'l' && s.get_char(i + 3)
            == 's' && s.get_char(i + 4) == 'e' {
            Some((JsonValue::Bool(false), i + 5))
        } else {
            None
        }
    } else if c == 'n' {
        if n - i >= 4 && s.get_char(i + 1) == 'u' && s.get_char(i + 2) == 'l' && s.get_char(i + 3)
            == 'l' {
            Some((JsonValue::Null, i + 4))
        } else {
            None
        }
    } else if c == '[' {
        let j = skip_ws(s, i + 1);
        if j < n && s.get_char(j) == ']' {
            let es: Vec<JsonValue> = Vec::new();
            proof {
                assert(nodes_of(es@) =~= Seq::<JsonNode>::empty());
            }
            Some((JsonValue::Arr(es), j + 1))
        } else {
            match p_elems(s, j) {
                None => None,
                Some((es, k)) => Some((JsonValue::Arr(es), k)),
            }
        }
    } else if c == '{' {
        let j = skip_ws(s, i + 1);
        if j < n && s.get_char(j) == '}' {
            let ms: Vec<(String, JsonValue)> = Vec::new();
            proof {
                assert(members_of(ms@) =~= Seq::<(Seq<char>, JsonNode)>::empty());
            }
            Some((JsonValue::Obj(ms), j + 1))
        } else {
            match p_members(s, j) {
                None => None,
                Some((ms, k)) => Some((JsonValue::Obj(ms), k)),
            }
        }
    } else {
        None
    }
}

fn p_elems(s: &str, i: usize) -> (r: Option<(Vec<JsonValue>, usize)>)
    requires
        i <= s@.len(),
    ensures
        match r {
            Some((es, k)) => sp_elems(s@, i as int) == Some((nodes_of(es@), k as int)) && i < k
                <= s@.len(),
            None => sp_elems(s@, i as int) is None,
        },
    decreases s@.len() - i, 1int,
{
    let n = s.unicode_len();
    match p_value(s, i) {
        None => None,
        Some((v, j)) => {
            let k = skip_ws(s, j);
            if k < n && s.get_char(k) == ']' {
                let mut es: Vec<JsonValue> = Vec::new();
                es.push(v);
                proof {
                    assert(nodes_of(es@) =~= seq![v@]);
                }
                Some((es, k + 1))
            } else if k < n && s.get_char(k) == ',' {
                let m = skip_ws(s, k + 1);
                match p_elems(s, m) {
                    None => None,
                    Some((rest, end)) => {
                        let ghost rest_nodes = nodes_of(rest@);
                        let mut es: Vec<JsonValue> = Vec::new();
                        es.push(v);
                        let mut rest = rest;
                        es.append(&mut rest);
                        proof {
                            assert(nodes_of(es@) =~= seq![v@] + rest_nodes);
                        }
                        Some((es, end))
                    },
                }
            } else {
                None
            }
        },
    }
}

fn p_members(s: &str, i: usize) -> (r: Option<(Vec<(String, JsonValue)>, usize)>)
    requires
        i <= s@.len(),
    ensures
        match r {
            Some((ms, k)) => sp_members(s@, i as int) == Some((members_of(ms@), k as int)) && i < k
                <= s@.len(),
            None => sp_members(s@, i as int) is None,
        },
    decreases s@.len() - i, 1int,
{
    let n = s.unicode_len();
    if !(i < n && s.get_char(i) == '"') {
        return None;
    }
    match p_str_content(s, i + 1) {
        None => None,
        Some((key, e)) => {
            let ghost key_view = key@;
            let c = skip_ws(s, e);
            if !(c < n && s.get_char(c) == ':') {
                return None;
            }
            let vs = skip_ws(s, c + 1);
            match p_value(s, vs) {
                None => None,
                Some((v, j)) => {
                    let k = skip_ws(s, j);
                    if k < n && s.get_char(k) == '}' {
                        let mut ms: Vec<(String, JsonValue)> = Vec::new();
                        ms.push((key, v));
                        proof {
                            assert(members_of(ms@) =~= seq![(key_view, v@)]);
                        }
                        Some((ms, k + 1))
                    } else if k < n && s.get_char(k) == ',' {
                        let m = skip_ws(s, k + 1);
                        match p_members(s, m) {
                            None => None,
                            Some((rest, end)) => {
                                let ghost rest_members = members_of(rest@);
                                let mut ms: Vec<(String, JsonValue)> = Vec::new();
                                ms.push((key, v));
                                let mut rest = rest;
                                ms.append(&mut rest);
                                proof {
                                    assert(members_of(ms@) =~= seq![(key_view, v@)]
                                        + rest_members);
                                }
                                Some((ms, end))
                            },
                        }
                    } else {
                        None
                    }
                },
            }
        },
    }
}

/// Parses one document of the payload grammar; refused exactly when
/// `sp_document` gives nothing for the input.
pub fn parse_document(s: &str) -> (r: Option<JsonValue>)
    ensures
        match r {
            Some(v) => sp_document(s@) == Some(v@),
            None => sp_document(s@) is None,
        },
{
    let i = skip_ws(s, 0);
    match p_value(s, i) {
        None => None,
        Some((v, j)) => {
            let k = skip_ws(s, j);
            if k == s.unicode_len() {
                Some(v)
            } else {
                None
            }
        },
    }
}

} // verus!
