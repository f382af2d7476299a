use vstd::prelude::*;
use crate::document::{Argument, Document, ObjectField, Root, ScalarValue, Value};
use crate::errors::DocumentError;

verus! {

// ---------------------------------------------------------------------------
// Character classes
// ---------------------------------------------------------------------------
/// Ignored between tokens: blanks, line ends, and the comma, which the
/// document grammar treats as insignificant.
pub open spec fn is_ws_char(c: char) -> bool {
    c == ' ' || c == '\t' || c == '\n' || c == '\r' || c == ','
}

/// Digits of an integer literal.
pub open spec fn is_digit_char(c: char) -> bool {
    48 <= c as u32 <= 57
}

/// Characters a name may start with.
pub open spec fn is_name_start_char(c: char) -> bool {
    (97 <= c as u32 <= 122) || (65 <= c as u32 <= 90) || c == '_'
}

/// Characters a name may continue with.
pub open spec fn is_name_char(c: char) -> bool {
    is_name_start_char(c) || is_digit_char(c)
}

fn ws_char(c: char) -> (r: bool)
    ensures
        r == is_ws_char(c),
{
    c == ' ' || c == '\t' || c == '\n' || c == '\r' || c == ','
}

fn digit_char(c: char) -> (r: bool)
    ensures
        r == is_digit_char(c),
{
    let n = c as u32;
    48 <= n && n <= 57
}

fn name_start_char(c: char) -> (r: bool)
    ensures
        r == is_name_start_char(c),
{
    let n = c as u32;
    (97 <= n && n <= 122) || (65 <= n && n <= 90) || c == '_'
}

fn name_char(c: char) -> (r: bool)
    ensures
        r == is_name_char(c),
{
    name_start_char(c) || digit_char(c)
}

// ---------------------------------------------------------------------------
// Scans
// ---------------------------------------------------------------------------
/// The position of the first character at or after `i` that is not ignored.
pub open spec fn spec_skip_ws(s: Seq<char>, i: int) -> int
    decreases s.len() - i,
    when 0 <= i <= s.len()
{
    if i < s.len() && is_ws_char(s[i]) {
        spec_skip_ws(s, i + 1)
    } else {
        i
    }
}

fn skip_ws(s: &Vec<char>, i: usize) -> (r: usize)
    requires
        i <= s@.len(),
    ensures
        i <= r <= s@.len(),
        r as int == spec_skip_ws(s@, i as int),
{
    let mut j = i;
    while j < s.len() && ws_char(s[j])
        invariant
            i <= j <= s@.len(),
            spec_skip_ws(s@, i as int) == spec_skip_ws(s@, j as int),
        decreases s@.len() - j,
    {
        j = j + 1;
    }
    j
}

/// The end of the run of name characters starting at `i`.
pub open spec fn spec_scan_name(s: Seq<char>, i: int) -> int
    decreases s.len() - i,
    when 0 <= i <= s.len()
{
    if i < s.len() && is_name_char(s[i]) {
        spec_scan_name(s, i + 1)
    } else {
        i
    }
}

/// The end of the run of digits starting at `i`.
pub open spec fn spec_scan_digits(s: Seq<char>, i: int) -> int
    decreases s.len() - i,
    when 0 <= i <= s.len()
{
    if i < s.len() && is_digit_char(s[i]) {
        spec_scan_digits(s, i + 1)
    } else {
        i
    }
}

proof fn lemma_scan_digits_bounds(s: Seq<char>, i: int)
    requires
        0 <= i <= s.len(),
    ensures
        i <= spec_scan_digits(s, i) <= s.len(),
        forall|k: int| i <= k < spec_scan_digits(s, i) ==> is_digit_char(s[k]),
    decreases s.len() - i,
{
    if i < s.len() && is_digit_char(s[i]) {
        lemma_scan_digits_bounds(s, i + 1);
    }
}

fn scan_digits(s: &Vec<char>, i: usize) -> (r: usize)
    requires
        i <= s@.len(),
    ensures
        i <= r <= s@.len(),
        r as int == spec_scan_digits(s@, i as int),
{
    let mut j = i;
    while j < s.len() && digit_char(s[j])
        invariant
            i <= j <= s@.len(),
            spec_scan_digits(s@, i as int) == spec_scan_digits(s@, j as int),
        decreases s@.len() - j,
    {
        j = j + 1;
    }
    j
}

/// Relies on `String::push`, which appends the given character to the end
/// of the string.
#[verifier::external_body]
fn push_char(s: &mut String, c: char)
    ensures
        final(s)@ == old(s)@.push(c),
{
    s.push(c)
}

/// Copies `s[from .. to]` into a fresh string.
fn copy_range(s: &Vec<char>, from: usize, to: usize) -> (r: String)
    requires
        from <= to <= s@.len(),
    ensures
        r@ == s@.subrange(from as int, to as int),
{
    let mut out = String::new();
    let mut j = from;
    while j < to
        invariant
            from <= j <= to <= s@.len(),
            out@ == s@.subrange(from as int, j as int),
        decreases to - j,
    {
        push_char(&mut out, s[j]);
        proof {
            assert(s@.subrange(from as int, j as int).push(s@[j as int]) =~= s@.subrange(
                from as int,
                j as int + 1,
            ));
        }
        j = j + 1;
    }
    out
}

// ---------------------------------------------------------------------------
// Names
// ---------------------------------------------------------------------------
/// The name starting at `i`: a name-start character followed by the run of
/// name characters, or nothing.
pub open spec fn spec_name(s: Seq<char>, i: int) -> Option<(Seq<char>, int)> {
    if 0 <= i < s.len() && is_name_start_char(s[i]) {
        Some((s.subrange(i, spec_scan_name(s, i)), spec_scan_name(s, i)))
    } else {
        None
    }
}

fn parse_name(s: &Vec<char>, i: usize) -> (r: Option<(String, usize)>)
    requires
        i <= s@.len(),
    ensures
        match r {
            Some((n, j)) => i < j <= s@.len() && spec_name(s@, i as int) == Some((n@, j as int)),
            None => spec_name(s@, i as int) is None,
        },
{
    if i >= s.len() || !name_start_char(s[i]) {
        return None;
    }
    let mut j = i;
    while j < s.len() && name_char(s[j])
        invariant
            i <= j <= s@.len(),
            spec_scan_name(s@, i as int) == spec_scan_name(s@, j as int),
        decreases s@.len() - j,
    {
        j = j + 1;
    }
    let n = copy_range(s, i, j);
    proof {
        assert(is_name_char(s@[i as int]));
    }
    Some((n, j))
}

// ---------------------------------------------------------------------------
// Integer literals
// ---------------------------------------------------------------------------
/// The value of the digit run `s[i .. j]`, read in base ten.
pub open spec fn digits_value(s: Seq<char>, i: int, j: int) -> int
    decreases j - i,
    when i <= j
{
    if i >= j {
        0
    } else {
        digits_value(s, i, j - 1) * 10 + (s[j - 1] as u32 - 48)
    }
}

/// The integer literal starting at `i`: an optional minus sign and a digit
/// run, whose value must fit a 32-bit signed integer.
pub open spec fn spec_int(s: Seq<char>, i: int) -> Option<(i32, int)> {
    if 0 <= i <= s.len() {
        let start = if i < s.len() && s[i] == '-' {
            i + 1
        } else {
            i
        };
        let end = spec_scan_digits(s, start);
        if end == start {
            None
        } else {
            let magnitude = digits_value(s, start, end);
            let value = if start > i {
                -magnitude
            } else {
                magnitude
            };
            if i32::MIN <= value <= i32::MAX {
                Some((value as i32, end))
            } else {
                None
            }
        }
    } else {
        None
    }
}

fn parse_int(s: &Vec<char>, i: usize) -> (r: Option<(i32, usize)>)
    requires
        i <= s@.len(),
    ensures
        match r {
            Some((v, j)) => i < j <= s@.len() && spec_int(s@, i as int) == Some((v, j as int)),
            None => spec_int(s@, i as int) is None,
        },
{
    let negative = i < s.len() && s[i] == '-';
    let start = if negative {
        i + 1
    } else {
        i
    };
    let end = scan_digits(s, start);
    if end == start {
        return None;
    }
    proof {
        lemma_scan_digits_bounds(s@, start as int);
    }
    let mut acc: u64 = 0;
    let mut big = false;
    let mut j = start;
    while j < end
        invariant
            start <= j <= end <= s@.len(),
            forall|k: int| start <= k < end ==> is_digit_char(s@[k]),
            !big ==> acc == digits_value(s@, start as int, j as int) && acc
                <= 99_999_999_999,
            big ==> digits_value(s@, start as int, j as int) > 99_999_999_999,
        decreases end - j,
    {
        let d = (s[j] as u32 - 48) as u64;
        if !big {
            if acc > 9_999_999_999 {
                big = true;
            } else {
                acc = acc * 10 + d;
            }
        }
        proof {
            assert(digits_value(s@, start as int, j as int + 1) == digits_value(
                s@,
                start as int,
                j as int,
            ) * 10 + (s@[j as int] as u32 - 48));
        }
        j = j + 1;
    }
    if big || acc > 2_147_483_648 || (acc == 2_147_483_648 && !negative) {
        return None;
    }
    let v: i32 = if negative {
        (-(acc as i64)) as i32
    } else {
        acc as i32
    };
    Some((v, end))
}

// ---------------------------------------------------------------------------
// Text literals
// ---------------------------------------------------------------------------
/// The end of the run of plain text characters starting at `i`: everything
/// up to a quote or a backslash (escapes are not part of this grammar).
pub open spec fn spec_scan_text(s: Seq<char>, i: int) -> int
    decreases s.len() - i,
    when 0 <= i <= s.len()
{
    if i < s.len() && s[i] != '"' && s[i] != '\\' {
        spec_scan_text(s, i + 1)
    } else {
        i
    }
}

/// The text literal starting at `i`: a quote, plain characters, and a
/// closing quote.
pub open spec fn spec_text(s: Seq<char>, i: int) -> Option<(Seq<char>, int)> {
    if 0 <= i < s.len() && s[i] == '"' {
        let end = spec_scan_text(s, i + 1);
        if end < s.len() && s[end] == '"' {
            Some((s.subrange(i + 1, end), end + 1))
        } else {
            None
        }
    } else {
        None
    }
}

fn parse_text(s: &Vec<char>, i: usize) -> (r: Option<(String, usize)>)
    requires
        i <= s@.len(),
    ensures
        match r {
            Some((t, j)) => i < j <= s@.len() && spec_text(s@, i as int) == Some((t@, j as int)),
            None => spec_text(s@, i as int) is None,
        },
{
    if i >= s.len() || s[i] != '"' {
        return None;
    }
    let mut j = i + 1;
    while j < s.len() && s[j] != '"' && s[j] != '\\'
        invariant
            i + 1 <= j <= s@.len(),
            spec_scan_text(s@, i as int + 1) == spec_scan_text(s@, j as int),
        decreases s@.len() - j,
    {
        j = j + 1;
    }
    if j >= s.len() || s[j] != '"' {
        return None;
    }
    let t = copy_range(s, i + 1, j);
    Some((t, j + 1))
}

// ---------------------------------------------------------------------------
// The grammar, at the specification level
// ---------------------------------------------------------------------------
/// A scalar as the grammar reads it, over mathematical text.
pub enum GrammarScalar {
    IntScalarG(i32),
    TextScalarG(Seq<char>),
}

/// An argument value as the grammar reads it. An input object carries the
/// one field the schema's input shapes declare.
pub enum GrammarValue {
    IntValueG(i32),
    TextValueG(Seq<char>),
    ObjectValueG(Seq<char>, GrammarScalar),
}

/// A whole document as the grammar reads it: the addressed root, the
/// operation field, at most one argument, and the selected entity fields.
pub struct GrammarDoc {
    pub root: Root,
    pub field: Seq<char>,
    pub arg: Option<(Seq<char>, GrammarValue)>,
    pub selection: Seq<Seq<char>>,
}

/// Whether an executable scalar carries exactly what the grammar read.
pub open spec fn scalar_matches(v: ScalarValue, g: GrammarScalar) -> bool {
    match (v, g) {
        (ScalarValue::IntScalar(a), GrammarScalar::IntScalarG(b)) => a == b,
        (ScalarValue::TextScalar(t), GrammarScalar::TextScalarG(u)) => t@ == u,
        _ => false,
    }
}

/// Whether an executable argument value carries exactly what the grammar
/// read.
pub open spec fn value_matches(v: Value, g: GrammarValue) -> bool {
    match (v, g) {
        (Value::IntValue(a), GrammarValue::IntValueG(b)) => a == b,
        (Value::TextValue(t), GrammarValue::TextValueG(u)) => t@ == u,
        (Value::ObjectValue(fields), GrammarValue::ObjectValueG(k, sc)) => fields@.len() == 1
            && fields@[0].key@ == k && scalar_matches(fields@[0].value, sc),
        _ => false,
    }
}

/// Whether an executable document carries exactly what the grammar read.
pub open spec fn doc_matches(d: Document, g: GrammarDoc) -> bool {
    &&& d.root == g.root
    &&& d.field@ == g.field
    &&& (match g.arg {
        None => d.arguments@.len() == 0,
        Some((n, gv)) => d.arguments@.len() == 1 && d.arguments@[0].name@ == n && value_matches(
            d.arguments@[0].value,
            gv,
        ),
    })
    &&& d.selection@.len() == g.selection.len()
    &&& forall|k: int| 0 <= k < g.selection.len() ==> d.selection@[k]@ == g.selection[k]
}

/// The scalar starting at `i`: an integer or a text literal.
pub open spec fn spec_scalar(s: Seq<char>, i: int) -> Option<(GrammarScalar, int)> {
    match spec_int(s, i) {
        Some((v, j)) => Some((GrammarScalar::IntScalarG(v), j)),
        None => match spec_text(s, i) {
            Some((t, j)) => Some((GrammarScalar::TextScalarG(t), j)),
            None => None,
        },
    }
}

/// The input object starting at `i`: a brace, one `key: scalar` field — the
/// arity every input shape of this schema declares — and a closing brace.
pub open spec fn spec_obj(s: Seq<char>, i: int) -> Option<((Seq<char>, GrammarScalar), int)> {
    if 0 <= i < s.len() && s[i] == '{' {
        match spec_name(s, spec_skip_ws(s, i + 1)) {
            None => None,
            Some((key, m)) => {
                let c = spec_skip_ws(s, m);
                if c < s.len() && s[c] == ':' {
                    match spec_scalar(s, spec_skip_ws(s, c + 1)) {
                        None => None,
                        Some((sc, e)) => {
                            let close = spec_skip_ws(s, e);
                            if close < s.len() && s[close] == '}' {
                                Some(((key, sc), close + 1))
                            } else {
                                None
                            }
                        },
                    }
                } else {
                    None
                }
            },
        }
    } else {
        None
    }
}

/// The argument value starting at `i`: an input object, an integer, or a
/// text literal.
pub open spec fn spec_value(s: Seq<char>, i: int) -> Option<(GrammarValue, int)> {
    match spec_obj(s, i) {
        Some(((k, sc), j)) => Some((GrammarValue::ObjectValueG(k, sc), j)),
        None => match spec_int(s, i) {
            Some((v, j)) => Some((GrammarValue::IntValueG(v), j)),
            None => match spec_text(s, i) {
                Some((t, j)) => Some((GrammarValue::TextValueG(t), j)),
                None => None,
            },
        },
    }
}

/// The argument list starting at `i`: a parenthesis, one `name: value`
/// argument — the arity every operation of this schema declares — and a
/// closing parenthesis.
pub open spec fn spec_args(s: Seq<char>, i: int) -> Option<((Seq<char>, GrammarValue), int)> {
    if 0 <= i < s.len() && s[i] == '(' {
        match spec_name(s, spec_skip_ws(s, i + 1)) {
            None => None,
            Some((n, m)) => {
                let c = spec_skip_ws(s, m);
                if c < s.len() && s[c] == ':' {
                    match spec_value(s, spec_skip_ws(s, c + 1)) {
                        None => None,
                        Some((v, e)) => {
                            let close = spec_skip_ws(s, e);
                            if close < s.len() && s[close] == ')' {
                                Some(((n, v), close + 1))
                            } else {
                                None
                            }
                        },
                    }
                } else {
                    None
                }
            },
        }
    } else {
        None
    }
}

/// The names inside a selection set, from `i` up to the closing brace.
pub open spec fn spec_sel_items(s: Seq<char>, i: int) -> Option<(Seq<Seq<char>>, int)>
    decreases s.len() - i,
    when 0 <= i <= s.len()
{
    let j = spec_skip_ws(s, i);
    if j < s.len() && s[j] == '}' {
        Some((Seq::empty(), j + 1))
    } else {
        match spec_name(s, j) {
            None => None,
            Some((n, k)) => if k <= i || k > s.len() {
                None
            } else {
                match spec_sel_items(s, k) {
                    None => None,
                    Some((rest, m)) => Some((seq![n] + rest, m)),
                }
            },
        }
    }
}

/// The selection set starting at `i`: a brace, the selected field names,
/// and a closing brace.
pub open spec fn spec_selection(s: Seq<char>, i: int) -> Option<(Seq<Seq<char>>, int)> {
    if 0 <= i < s.len() && s[i] == '{' {
        spec_sel_items(s, i + 1)
    } else {
        None
    }
}

/// The operation selection inside the document's top braces, starting at
/// `i`: the operation's field name, its optional argument list, and its
/// selection set, followed by the closing brace and the end of the text.
pub open spec fn spec_doc_body(s: Seq<char>, root: Root, i: int) -> Option<GrammarDoc> {
    match spec_name(s, spec_skip_ws(s, i)) {
        None => None,
        Some((fname, k)) => {
            let p = spec_skip_ws(s, k);
            let argres: Option<(Option<(Seq<char>, GrammarValue)>, int)> = if p < s.len() && s[p]
                == '(' {
                match spec_args(s, p) {
                    None => None,
                    Some((a, q)) => Some((Some(a), q)),
                }
            } else {
                Some((None, p))
            };
            match argres {
                None => None,
                Some((arg, q)) => match spec_selection(s, spec_skip_ws(s, q)) {
                    None => None,
                    Some((sel, t)) => {
                        let u = spec_skip_ws(s, t);
                        if u < s.len() && s[u] == '}' && spec_skip_ws(s, u + 1) == s.len() {
                            Some(GrammarDoc { root, field: fname, arg, selection: sel })
                        } else {
                            None
                        }
                    },
                },
            }
        },
    }
}

// ---------------------------------------------------------------------------
// The grammar, executed
// ---------------------------------------------------------------------------
fn parse_scalar(s: &Vec<char>, i: usize) -> (r: Option<(ScalarValue, usize)>)
    requires
        i <= s@.len(),
    ensures
        match r {
            Some((v, j)) => i < j <= s@.len() && (spec_scalar(s@, i as int) matches Some((g, jj))
                && jj == j as int && scalar_matches(v, g)),
            None => spec_scalar(s@, i as int) is None,
        },
{
    if i < s.len() && s[i] == '"' {
        match parse_text(s, i) {
            Some((t, j)) => Some((ScalarValue::TextScalar(t), j)),
            None => None,
        }
    } else {
        match parse_int(s, i) {
            Some((v, j)) => Some((ScalarValue::IntScalar(v), j)),
            None => None,
        }
    }
}

fn parse_obj(s: &Vec<char>, i: usize) -> (r: Option<((String, ScalarValue), usize)>)
    requires
        i <= s@.len(),
    ensures
        match r {
            Some(((key, v), j)) => i < j <= s@.len() && (spec_obj(s@, i as int) matches Some(
                ((k, g), jj),
            ) && jj == j as int && key@ == k && scalar_matches(v, g)),
            None => spec_obj(s@, i as int) is None,
        },
{
    if !(i < s.len() && s[i] == '{') {
        return None;
    }
    let (key, m) = match parse_name(s, skip_ws(s, i + 1)) {
        None => {
            return None;
        },
        Some(x) => x,
    };
    let c = skip_ws(s, m);
    if !(c < s.len() && s[c] == ':') {
        return None;
    }
    let (v, e) = match parse_scalar(s, skip_ws(s, c + 1)) {
        None => {
            return None;
        },
        Some(x) => x,
    };
    let close = skip_ws(s, e);
    if close < s.len() && s[close] == '}' {
        Some(((key, v), close + 1))
    } else {
        None
    }
}

fn parse_value(s: &Vec<char>, i: usize) -> (r: Option<(Value, usize)>)
    requires
        i <= s@.len(),
    ensures
        match r {
            Some((v, j)) => i < j <= s@.len() && (spec_value(s@, i as int) matches Some((g, jj))
                && jj == j as int && value_matches(v, g)),
            None => spec_value(s@, i as int) is None,
        },
{
    if i < s.len() && s[i] == '{' {
        match parse_obj(s, i) {
            Some(((key, v), j)) => {
                let mut fields: Vec<ObjectField> = Vec::new();
                fields.push(ObjectField { key, value: v });
                Some((Value::ObjectValue(fields), j))
            },
            None => None,
        }
    } else if i < s.len() && s[i] == '"' {
        match parse_text(s, i) {
            Some((t, j)) => Some((Value::TextValue(t), j)),
            None => None,
        }
    } else {
        match parse_int(s, i) {
            Some((v, j)) => Some((Value::IntValue(v), j)),
            None => None,
        }
    }
}

fn parse_args(s: &Vec<char>, i: usize) -> (r: Option<((String, Value), usize)>)
    requires
        i <= s@.len(),
    ensures
        match r {
            Some(((n, v), j)) => i < j <= s@.len() && (spec_args(s@, i as int) matches Some(
                ((gn, gv), jj),
            ) && jj == j as int && n@ == gn && value_matches(v, gv)),
            None => spec_args(s@, i as int) is None,
        },
{
    if !(i < s.len() && s[i] == '(') {
        return None;
    }
    let (n, m) = match parse_name(s, skip_ws(s, i + 1)) {
        None => {
            return None;
        },
        Some(x) => x,
    };
    let c = skip_ws(s, m);
    if !(c < s.len() && s[c] == ':') {
        return None;
    }
    let (v, e) = match parse_value(s, skip_ws(s, c + 1)) {
        None => {
            return None;
        },
        Some(x) => x,
    };
    let close = skip_ws(s, e);
    if close < s.len() && s[close] == ')' {
        Some(((n, v), close + 1))
    } else {
        None
    }
}

fn parse_sel_items(s: &Vec<char>, i: usize, out: &mut Vec<String>) -> (r: Option<usize>)
    requires
        i <= s@.len(),
    ensures
        match spec_sel_items(s@, i as int) {
            Some((sel, m)) => r matches Some(j) && j as int == m && j <= s@.len()
                && final(out)@.len() == old(out)@.len() + sel.len() && (forall|k: int|
                0 <= k < old(out)@.len() ==> final(out)@[k] == old(out)@[k]) && (forall|k: int|
                0 <= k < sel.len() ==> final(out)@[old(out)@.len() + k]@ == sel[k]),
            None => r is None,
        },
    decreases s@.len() - i,
{
    let j = skip_ws(s, i);
    if j < s.len() && s[j] == '}' {
        return Some(j + 1);
    }
    let (n, k) = match parse_name(s, j) {
        None => {
            return None;
        },
        Some(x) => x,
    };
    out.push(n);
    match parse_sel_items(s, k, out) {
        None => None,
        Some(m) => Some(m),
    }
}

fn parse_selection(s: &Vec<char>, i: usize) -> (r: Option<(Vec<String>, usize)>)
    requires
        i <= s@.len(),
    ensures
        match r {
            Some((sel, j)) => j <= s@.len() && (spec_selection(s@, i as int) matches Some(
                (gsel, jj),
            ) && jj == j as int && sel@.len() == gsel.len() && (forall|k: int|
                0 <= k < gsel.len() ==> sel@[k]@ == gsel[k])),
            None => spec_selection(s@, i as int) is None,
        },
{
    if !(i < s.len() && s[i] == '{') {
        return None;
    }
    let mut sel: Vec<String> = Vec::new();
    match parse_sel_items(s, i + 1, &mut sel) {
        None => None,
        Some(j) => Some((sel, j)),
    }
}

fn parse_doc_body(s: &Vec<char>, root: Root, i: usize) -> (r: Result<Document, DocumentError>)
    requires
        i <= s@.len(),
    ensures
        match r {
            Ok(d) => spec_doc_body(s@, root, i as int) matches Some(g) && doc_matches(d, g),
            Err(e) => spec_doc_body(s@, root, i as int) is None && e
                == DocumentError::MalformedDocument,
        },
{
    let (fname, k) = match parse_name(s, skip_ws(s, i)) {
        None => {
            return Err(DocumentError::MalformedDocument);
        },
        Some(x) => x,
    };
    let p = skip_ws(s, k);
    let mut arguments: Vec<Argument> = Vec::new();
    let q: usize;
    if p < s.len() && s[p] == '(' {
        match parse_args(s, p) {
            None => {
                return Err(DocumentError::MalformedDocument);
            },
            Some(((n, v), q2)) => {
                arguments.push(Argument { name: n, value: v });
                q = q2;
            },
        }
    } else {
        q = p;
    }
    let (selection, t) = match parse_selection(s, skip_ws(s, q)) {
        None => {
            return Err(DocumentError::MalformedDocument);
        },
        Some(x) => x,
    };
    let u = skip_ws(s, t);
    if u < s.len() && s[u] == '}' && skip_ws(s, u + 1) == s.len() {
        Ok(Document { root, field: fname, arguments, selection })
    } else {
        Err(DocumentError::MalformedDocument)
    }
}

/// Parses the raw text of a query document into its parsed form, or reports
/// it malformed exactly where the grammar has no reading for it.
pub fn parse_document(text: &Vec<char>) -> (r: Result<Document, DocumentError>)
    ensures
        match r {
            Ok(d) => spec_document(text@) matches Some(g) && doc_matches(d, g),
            Err(e) => spec_document(text@) is None && e == DocumentError::MalformedDocument,
        },
{
    let i = skip_ws(text, 0);
    if i < text.len() && text[i] == '{' {
        return parse_doc_body(text, Root::QueryRoot, i + 1);
    }
    let (kw, j) = match parse_name(text, i) {
        None => {
            return Err(DocumentError::MalformedDocument);
        },
        Some(x) => x,
    };
    let k = skip_ws(text, j);
    if !(k < text.len() && text[k] == '{') {
        return Err(DocumentError::MalformedDocument);
    }
    if crate::document::text_is(&kw, "query") {
        parse_doc_body(text, Root::QueryRoot, k + 1)
    } else if crate::document::text_is(&kw, "mutation") {
        parse_doc_body(text, Root::MutationRoot, k + 1)
    } else {
        Err(DocumentError::MalformedDocument)
    }
}

/// The whole document: optional ignored characters, an optional `query` or
/// `mutation` keyword — a bare selection set addresses the query root — and
/// the top-level selection set holding exactly one operation.
pub open spec fn spec_document(s: Seq<char>) -> Option<GrammarDoc> {
    let i = spec_skip_ws(s, 0);
    if i < s.len() && s[i] == '{' {
        spec_doc_body(s, Root::QueryRoot, i + 1)
    } else {
        match spec_name(s, i) {
            None => None,
            Some((kw, j)) => {
                let k = spec_skip_ws(s, j);
                if !(k < s.len() && s[k] == '{') {
                    None
                } else if kw == "query"@ {
                    spec_doc_body(s, Root::QueryRoot, k + 1)
                } else if kw == "mutation"@ {
                    spec_doc_body(s, Root::MutationRoot, k + 1)
                } else {
                    None
                }
            },
        }
    }
}

} // verus!
