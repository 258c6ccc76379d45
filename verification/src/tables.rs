//! The embedded reference tables and their parser: correction factors per
//! spectral window, airmass-independent corrections per gas, and the
//! spectral-window table with its disabled-row convention.
//!
//! Numeric fields are held in micro-units (millionths); see `numbers`.

use vstd::prelude::*;
use vstd::string::*;
use crate::text::{ws_tokens, split_char, split_on};
use crate::numbers::{
    fixed_wf, fixed_in_range, fixed_micro_val, is_int_str, int_val, parse_fixed, parse_int,
    MICRO_SCALE,
};
use crate::keyed::{Entry, entry_map, sorted_unique, keys_ascii, upsert};

verus! {

/// Largest magnitude accepted for an integer table field.
pub const INT_FIELD_MAX: i64 = 2147483647;

/// A correction-factor record: central value and uncertainty in micro-units,
/// and two integer tuning exponents.
pub struct Adcf {
    pub adcf: i64,
    pub err: i64,
    pub g: i64,
    pub p: i64,
}

pub struct AdcfV {
    pub adcf: int,
    pub err: int,
    pub g: int,
    pub p: int,
}

impl View for Adcf {
    type V = AdcfV;

    open spec fn view(&self) -> AdcfV {
        AdcfV { adcf: self.adcf as int, err: self.err as int, g: self.g as int, p: self.p as int }
    }
}

/// An independent-correction record: scale value and uncertainty in
/// micro-units.
pub struct Aicf {
    pub aicf: i64,
    pub err: i64,
}

pub struct AicfV {
    pub aicf: int,
    pub err: int,
}

impl View for Aicf {
    type V = AicfV;

    open spec fn view(&self) -> AicfV {
        AicfV { aicf: self.aicf as int, err: self.err as int }
    }
}

/// A numeral token acceptable as a fixed-point table field.
pub open spec fn fixed_ok(t: Seq<char>) -> bool {
    fixed_wf(t) && fixed_in_range(t)
}

/// A numeral token acceptable as an integer table field.
pub open spec fn int_ok(t: Seq<char>) -> bool {
    is_int_str(t) && -(INT_FIELD_MAX as int) <= int_val(t) <= INT_FIELD_MAX as int
}

/// The contents of a double-quoted key token, if it is one.
pub open spec fn unquote(t: Seq<char>) -> Option<Seq<char>> {
    if t.len() >= 2 && t[0] == '"' && t[t.len() - 1] == '"' {
        Some(t.subrange(1, t.len() - 1))
    } else {
        None
    }
}

/// Decodes one correction-factor row: a quoted window name, two fixed-point
/// fields, and two integer fields.
pub open spec fn parse_adcf_line(l: Seq<char>) -> Option<(Seq<char>, AdcfV)> {
    let toks = ws_tokens(l);
    if toks.len() < 5 {
        None
    } else {
        match unquote(toks[0]) {
            None => None,
            Some(key) => if fixed_ok(toks[1]) && fixed_ok(toks[2]) && int_ok(toks[3]) && int_ok(
                toks[4],
            ) {
                Some(
                    (
                        key,
                        AdcfV {
                            adcf: fixed_micro_val(toks[1]),
                            err: fixed_micro_val(toks[2]),
                            g: int_val(toks[3]),
                            p: int_val(toks[4]),
                        },
                    ),
                )
            } else {
                None
            },
        }
    }
}

/// Decodes one independent-correction row: a quoted gas name and two
/// fixed-point fields.
pub open spec fn parse_aicf_line(l: Seq<char>) -> Option<(Seq<char>, AicfV)> {
    let toks = ws_tokens(l);
    if toks.len() < 3 {
        None
    } else {
        match unquote(toks[0]) {
            None => None,
            Some(key) => if fixed_ok(toks[1]) && fixed_ok(toks[2]) {
                Some(
                    (key, AicfV { aicf: fixed_micro_val(toks[1]), err: fixed_micro_val(toks[2]) }),
                )
            } else {
                None
            },
        }
    }
}

/// Strips the double quotes from a key token.
fn unquote_tok<'a>(t: &'a str) -> (r: Option<&'a str>)
    requires
        t.is_ascii(),
    ensures
        match r {
            Some(k) => unquote(t@) == Some(k@) && k.is_ascii(),
            None => unquote(t@) is None,
        },
{
    let n = t.unicode_len();
    if n < 2 {
        return None;
    }
    let c0 = t.get_ascii(0);
    let cl = t.get_ascii(n - 1);
    proof {
        assert('\0' <= t@[0] <= '\u{7f}');
        assert('\0' <= t@[n - 1] <= '\u{7f}');
        assert((c0 == 34) == (t@[0] == '"'));
        assert((cl == 34) == (t@[n - 1] == '"'));
    }
    if c0 == 34 && cl == 34 {
        Some(t.substring_ascii(1, n - 1))
    } else {
        None
    }
}

/// Decodes one correction-factor row into a keyed record.
fn parse_adcf_row(line: &str) -> (r: Option<Entry<Adcf>>)
    requires
        line.is_ascii(),
    ensures
        match r {
            Some(e) => parse_adcf_line(line@) == Some((e.key@, e.val@)) && e.key.is_ascii(),
            None => parse_adcf_line(line@) is None,
        },
{
    let toks = crate::text::split_ws(line);
    proof {
        assert(toks.deep_view() =~~= ws_tokens(line@));
    }
    if toks.len() < 5 {
        return None;
    }
    proof {
        assert(toks@[0]@ == ws_tokens(line@)[0]);
        assert(toks@[1]@ == ws_tokens(line@)[1]);
        assert(toks@[2]@ == ws_tokens(line@)[2]);
        assert(toks@[3]@ == ws_tokens(line@)[3]);
        assert(toks@[4]@ == ws_tokens(line@)[4]);
    }
    let key = match unquote_tok(toks[0]) {
        Some(k) => k,
        None => {
            return None;
        },
    };
    let adcf = match parse_fixed(toks[1]) {
        Some(v) => v,
        None => {
            return None;
        },
    };
    let err = match parse_fixed(toks[2]) {
        Some(v) => v,
        None => {
            return None;
        },
    };
    let g = match parse_int(toks[3], INT_FIELD_MAX) {
        Some(v) => v,
        None => {
            return None;
        },
    };
    let p = match parse_int(toks[4], INT_FIELD_MAX) {
        Some(v) => v,
        None => {
            return None;
        },
    };
    Some(Entry { key: key.to_owned(), val: Adcf { adcf, err, g, p } })
}

/// Decodes one independent-correction row into a keyed record.
fn parse_aicf_row(line: &str) -> (r: Option<Entry<Aicf>>)
    requires
        line.is_ascii(),
    ensures
        match r {
            Some(e) => parse_aicf_line(line@) == Some((e.key@, e.val@)) && e.key.is_ascii(),
            None => parse_aicf_line(line@) is None,
        },
{
    let toks = crate::text::split_ws(line);
    proof {
        assert(toks.deep_view() =~~= ws_tokens(line@));
    }
    if toks.len() < 3 {
        return None;
    }
    proof {
        assert(toks@[0]@ == ws_tokens(line@)[0]);
        assert(toks@[1]@ == ws_tokens(line@)[1]);
        assert(toks@[2]@ == ws_tokens(line@)[2]);
    }
    let key = match unquote_tok(toks[0]) {
        Some(k) => k,
        None => {
            return None;
        },
    };
    let aicf = match parse_fixed(toks[1]) {
        Some(v) => v,
        None => {
            return None;
        },
    };
    let err = match parse_fixed(toks[2]) {
        Some(v) => v,
        None => {
            return None;
        },
    };
    Some(Entry { key: key.to_owned(), val: Aicf { aicf, err } })
}

/// Folds correction-factor rows into a map; a later row with the same key
/// overrides an earlier one, and any malformed row spoils the whole table.
pub open spec fn adcf_fold(lines: Seq<Seq<char>>) -> Option<Map<Seq<char>, AdcfV>>
    decreases lines.len(),
{
    if lines.len() == 0 {
        Some(Map::empty())
    } else {
        match adcf_fold(lines.drop_last()) {
            None => None,
            Some(m) => match parse_adcf_line(lines.last()) {
                None => None,
                Some(kv) => Some(m.insert(kv.0, kv.1)),
            },
        }
    }
}

pub open spec fn aicf_fold(lines: Seq<Seq<char>>) -> Option<Map<Seq<char>, AicfV>>
    decreases lines.len(),
{
    if lines.len() == 0 {
        Some(Map::empty())
    } else {
        match aicf_fold(lines.drop_last()) {
            None => None,
            Some(m) => match parse_aicf_line(lines.last()) {
                None => None,
                Some(kv) => Some(m.insert(kv.0, kv.1)),
            },
        }
    }
}

/// The records encoded by a correction-factor table text: every line but the
/// header, keyed by the quoted window name.
pub open spec fn adcf_table_map(text: Seq<char>) -> Option<Map<Seq<char>, AdcfV>> {
    adcf_fold(split_on(text, '\n').drop_first())
}

pub open spec fn aicf_table_map(text: Seq<char>) -> Option<Map<Seq<char>, AicfV>> {
    aicf_fold(split_on(text, '\n').drop_first())
}

pub proof fn lemma_adcf_fold_none(lines: Seq<Seq<char>>, j: int)
    requires
        0 <= j <= lines.len(),
        adcf_fold(lines.take(j)) is None,
    ensures
        adcf_fold(lines) is None,
    decreases lines.len() - j,
{
    if j < lines.len() {
        assert(lines.take(j + 1).drop_last() =~= lines.take(j));
        lemma_adcf_fold_none(lines, j + 1);
    } else {
        assert(lines.take(j) =~= lines);
    }
}

pub proof fn lemma_aicf_fold_none(lines: Seq<Seq<char>>, j: int)
    requires
        0 <= j <= lines.len(),
        aicf_fold(lines.take(j)) is None,
    ensures
        aicf_fold(lines) is None,
    decreases lines.len() - j,
{
    if j < lines.len() {
        assert(lines.take(j + 1).drop_last() =~= lines.take(j));
        lemma_aicf_fold_none(lines, j + 1);
    } else {
        assert(lines.take(j) =~= lines);
    }
}

/// Parses a correction-factor table text into records sorted by window name.
pub fn parse_adcf_text(text: &str) -> (r: Result<Vec<Entry<Adcf>>, String>)
    ensures
        match r {
            Ok(v) => {
                &&& text.is_ascii()
                &&& sorted_unique(v@)
                &&& keys_ascii(v@)
                &&& adcf_table_map(text@) == Some(entry_map(v@))
            },
            Err(_) => !text.is_ascii() || adcf_table_map(text@) is None,
        },
{
    if !text.is_ascii() {
        return Err("correction-factor table is not ASCII text".to_owned());
    }
    let lines = split_char(text, '\n');
    let ghost tl = split_on(text@, '\n').drop_first();
    proof {
        assert(lines.deep_view() =~~= split_on(text@, '\n'));
        assert(lines.deep_view().len() >= 1);
    }
    let mut v: Vec<Entry<Adcf>> = Vec::new();
    let mut i: usize = 1;
    proof {
        assert(tl.take(0) =~= Seq::<Seq<char>>::empty());
        assert(entry_map(v@) =~= Map::<Seq<char>, AdcfV>::empty());
    }
    while i < lines.len()
        invariant
            text.is_ascii(),
            lines.deep_view() =~~= split_on(text@, '\n'),
            forall|k: int| 0 <= k < lines@.len() ==> (#[trigger] lines@[k]).is_ascii(),
            tl == split_on(text@, '\n').drop_first(),
            1 <= i <= lines@.len(),
            lines@.len() == tl.len() + 1,
            sorted_unique(v@),
            keys_ascii(v@),
            adcf_fold(tl.take(i - 1)) == Some(entry_map(v@)),
        decreases lines@.len() - i,
    {
        let row = parse_adcf_row(lines[i]);
        proof {
            assert(lines@[i as int]@ == lines.deep_view()[i as int]);
            assert(tl[i - 1] == lines.deep_view()[i as int]);
            assert(tl.take(i as int).drop_last() =~= tl.take(i - 1));
            assert(tl.take(i as int).last() == tl[i - 1]);
        }
        match row {
            Some(e) => {
                upsert(&mut v, e.key, e.val);
            },
            None => {
                proof {
                    lemma_adcf_fold_none(tl, i as int);
                }
                return Err("malformed row in the correction-factor table".to_owned());
            },
        }
        i = i + 1;
    }
    proof {
        assert(tl.take(i - 1) =~= tl);
    }
    Ok(v)
}

/// Parses an independent-correction table text into records sorted by gas.
pub fn parse_aicf_text(text: &str) -> (r: Result<Vec<Entry<Aicf>>, String>)
    ensures
        match r {
            Ok(v) => {
                &&& text.is_ascii()
                &&& sorted_unique(v@)
                &&& keys_ascii(v@)
                &&& aicf_table_map(text@) == Some(entry_map(v@))
            },
            Err(_) => !text.is_ascii() || aicf_table_map(text@) is None,
        },
{
    if !text.is_ascii() {
        return Err("independent-correction table is not ASCII text".to_owned());
    }
    let lines = split_char(text, '\n');
    let ghost tl = split_on(text@, '\n').drop_first();
    proof {
        assert(lines.deep_view() =~~= split_on(text@, '\n'));
        assert(lines.deep_view().len() >= 1);
    }
    let mut v: Vec<Entry<Aicf>> = Vec::new();
    let mut i: usize = 1;
    proof {
        assert(tl.take(0) =~= Seq::<Seq<char>>::empty());
        assert(entry_map(v@) =~= Map::<Seq<char>, AicfV>::empty());
    }
    while i < lines.len()
        invariant
            text.is_ascii(),
            lines.deep_view() =~~= split_on(text@, '\n'),
            forall|k: int| 0 <= k < lines@.len() ==> (#[trigger] lines@[k]).is_ascii(),
            tl == split_on(text@, '\n').drop_first(),
            1 <= i <= lines@.len(),
            lines@.len() == tl.len() + 1,
            sorted_unique(v@),
            keys_ascii(v@),
            aicf_fold(tl.take(i - 1)) == Some(entry_map(v@)),
        decreases lines@.len() - i,
    {
        let row = parse_aicf_row(lines[i]);
        proof {
            assert(lines@[i as int]@ == lines.deep_view()[i as int]);
            assert(tl[i - 1] == lines.deep_view()[i as int]);
            assert(tl.take(i as int).drop_last() =~= tl.take(i - 1));
            assert(tl.take(i as int).last() == tl[i - 1]);
        }
        match row {
            Some(e) => {
                upsert(&mut v, e.key, e.val);
            },
            None => {
                proof {
                    lemma_aicf_fold_none(tl, i as int);
                }
                return Err("malformed row in the independent-correction table".to_owned());
            },
        }
        i = i + 1;
    }
    proof {
        assert(tl.take(i - 1) =~= tl);
    }
    Ok(v)
}

/// A spectral-window record: integer-truncated center wavenumber, primary
/// gas, and window-to-window scale factor in micro-units.
pub struct Window {
    pub center: i64,
    pub gas: String,
    pub sf: i64,
}

pub struct WindowV {
    pub center: int,
    pub gas: Seq<char>,
    pub sf: int,
}

impl View for Window {
    type V = WindowV;

    open spec fn view(&self) -> WindowV {
        WindowV { center: self.center as int, gas: self.gas@, sf: self.sf as int }
    }
}

/// The derived window name, primary gas, and center string of a window row:
/// the row is split at its first `:` into parameters and gases; the name is
/// the first gas token, an underscore, and the first parameter token
/// truncated at its first dot.
pub open spec fn window_name_parts(l: Seq<char>) -> Option<(Seq<char>, Seq<char>, Seq<char>)> {
    if crate::text::idx_of(l, ':') == l.len() {
        None
    } else {
        let left = l.take(crate::text::idx_of(l, ':'));
        let right = l.skip(crate::text::idx_of(l, ':') + 1);
        let cmd = ws_tokens(left);
        let gases = ws_tokens(right);
        if cmd.len() < 1 || gases.len() < 1 {
            None
        } else {
            let center = cmd[0].take(crate::text::idx_of(cmd[0], '.'));
            Some((gases[0] + seq!['_'] + center, gases[0], center))
        }
    }
}

/// Derives the window name of a table row, with its primary gas and center
/// string.
pub fn get_window_name(table_line: &str) -> (r: Option<(String, String, String)>)
    ensures
        match r {
            Some(t) => {
                &&& table_line.is_ascii()
                &&& window_name_parts(table_line@) == Some((t.0@, t.1@, t.2@))
                &&& t.0.is_ascii()
                &&& t.1.is_ascii()
                &&& t.2.is_ascii()
            },
            None => !table_line.is_ascii() || window_name_parts(table_line@) is None,
        },
{
    if !table_line.is_ascii() {
        return None;
    }
    let (left, right) = match crate::text::split_first(table_line, ':') {
        Some(p) => p,
        None => {
            return None;
        },
    };
    let cmd = crate::text::split_ws(left);
    let gases = crate::text::split_ws(right);
    proof {
        assert(cmd.deep_view() =~~= ws_tokens(left@));
        assert(gases.deep_view() =~~= ws_tokens(right@));
    }
    if cmd.len() < 1 || gases.len() < 1 {
        return None;
    }
    proof {
        assert(cmd@[0]@ == ws_tokens(left@)[0]);
        assert(gases@[0]@ == ws_tokens(right@)[0]);
    }
    let tok = cmd[0];
    let dot = crate::text::find_char(tok, '.');
    let center = tok.substring_ascii(0, dot);
    proof {
        assert(center@ =~= tok@.take(crate::text::idx_of(tok@, '.')));
    }
    let gas = gases[0];
    let mut name = String::new();
    name.append(gas);
    name.append("_");
    name.append(center);
    proof {
        reveal_strlit("_");
        assert("_"@ =~= seq!['_']);
        assert(name@ =~= gas@ + seq!['_'] + center@);
    }
    Some((name, gas.to_owned(), center.to_owned()))
}

/// The scale factor of a window row in micro-units: the first
/// `sf=<digit>.<digits>` token, or exactly one if the row has none.
pub open spec fn window_sf(l: Seq<char>) -> int {
    match crate::scan::sf_token(l) {
        None => MICRO_SCALE as int,
        Some(c) => fixed_micro_val(c),
    }
}

/// Decodes one active window row into its derived name and record.
pub open spec fn parse_window_line(l: Seq<char>) -> Option<(Seq<char>, WindowV)> {
    match window_name_parts(l) {
        None => None,
        Some(p) => if int_ok(p.2) {
            Some((p.0, WindowV { center: int_val(p.2), gas: p.1, sf: window_sf(l) }))
        } else {
            None
        },
    }
}

/// A row disabled by the leading escape marker.
pub open spec fn is_disabled_row(l: Seq<char>) -> bool {
    l.len() > 0 && l[0] == ':'
}

/// Folds window rows into a map of active windows; disabled rows contribute
/// nothing but must still derive a name; a later active row with the same
/// derived name overrides an earlier one.
pub open spec fn windows_fold(lines: Seq<Seq<char>>) -> Option<Map<Seq<char>, WindowV>>
    decreases lines.len(),
{
    if lines.len() == 0 {
        Some(Map::empty())
    } else {
        match windows_fold(lines.drop_last()) {
            None => None,
            Some(m) => {
                let l = lines.last();
                if is_disabled_row(l) {
                    match window_name_parts(l.drop_first()) {
                        None => None,
                        Some(p) => Some(m),
                    }
                } else {
                    match parse_window_line(l) {
                        None => None,
                        Some(kv) => Some(m.insert(kv.0, kv.1)),
                    }
                }
            },
        }
    }
}

/// The names derived from disabled rows, in table order.
pub open spec fn skipped_fold(lines: Seq<Seq<char>>) -> Seq<Seq<char>>
    decreases lines.len(),
{
    if lines.len() == 0 {
        Seq::empty()
    } else {
        let rest = skipped_fold(lines.drop_last());
        let l = lines.last();
        if is_disabled_row(l) {
            match window_name_parts(l.drop_first()) {
                None => rest,
                Some(p) => rest.push(p.0),
            }
        } else {
            rest
        }
    }
}

pub open spec fn windows_table_map(text: Seq<char>) -> Option<Map<Seq<char>, WindowV>> {
    windows_fold(split_on(text, '\n').drop_first())
}

pub open spec fn skipped_names(text: Seq<char>) -> Seq<Seq<char>> {
    skipped_fold(split_on(text, '\n').drop_first())
}

/// The disabled names not superseded by an active window of the same name.
pub open spec fn filter_not_in(names: Seq<Seq<char>>, m: Map<Seq<char>, WindowV>) -> Seq<
    Seq<char>,
>
    decreases names.len(),
{
    if names.len() == 0 {
        Seq::empty()
    } else {
        let rest = filter_not_in(names.drop_last(), m);
        if m.contains_key(names.last()) {
            rest
        } else {
            rest.push(names.last())
        }
    }
}

pub proof fn lemma_windows_fold_none(lines: Seq<Seq<char>>, j: int)
    requires
        0 <= j <= lines.len(),
        windows_fold(lines.take(j)) is None,
    ensures
        windows_fold(lines) is None,
    decreases lines.len() - j,
{
    if j < lines.len() {
        assert(lines.take(j + 1).drop_last() =~= lines.take(j));
        lemma_windows_fold_none(lines, j + 1);
    } else {
        assert(lines.take(j) =~= lines);
    }
}

/// Decodes one active window row into a keyed record.
fn parse_window_row(line: &str) -> (r: Option<Entry<Window>>)
    requires
        line.is_ascii(),
    ensures
        match r {
            Some(e) => parse_window_line(line@) == Some((e.key@, e.val@)) && e.key.is_ascii(),
            None => parse_window_line(line@) is None,
        },
{
    let parts = match get_window_name(line) {
        Some(p) => p,
        None => {
            return None;
        },
    };
    let (name, gas, center) = parts;
    let c = match parse_int(center.as_str(), INT_FIELD_MAX) {
        Some(v) => v,
        None => {
            return None;
        },
    };
    let sf = match crate::scan::scan_sf(line) {
        Some(v) => v,
        None => MICRO_SCALE,
    };
    Some(Entry { key: name, val: Window { center: c, gas, sf } })
}

/// Parses a window table text: the active windows sorted by derived name,
/// and the disabled names that no active window supersedes, sorted.
pub fn parse_windows_text(text: &str) -> (r: Result<(Vec<Entry<Window>>, Vec<String>), String>)
    ensures
        match r {
            Ok(p) => {
                &&& text.is_ascii()
                &&& sorted_unique(p.0@)
                &&& keys_ascii(p.0@)
                &&& windows_table_map(text@) == Some(entry_map(p.0@))
                &&& crate::keyed::sorted_dup(crate::keyed::views_of(p.1@))
                &&& crate::keyed::views_of(p.1@).to_multiset() == filter_not_in(
                    skipped_names(text@),
                    entry_map(p.0@),
                ).to_multiset()
                &&& forall|i: int| 0 <= i < p.1@.len() ==> (#[trigger] p.1@[i]).is_ascii()
            },
            Err(_) => !text.is_ascii() || windows_table_map(text@) is None,
        },
{
    if !text.is_ascii() {
        return Err("window table is not ASCII text".to_owned());
    }
    let lines = split_char(text, '\n');
    let ghost tl = split_on(text@, '\n').drop_first();
    proof {
        assert(lines.deep_view() =~~= split_on(text@, '\n'));
        assert(lines.deep_view().len() >= 1);
    }
    let mut v: Vec<Entry<Window>> = Vec::new();
    let mut raw_skipped: Vec<String> = Vec::new();
    let mut i: usize = 1;
    proof {
        assert(tl.take(0) =~= Seq::<Seq<char>>::empty());
        assert(entry_map(v@) =~= Map::<Seq<char>, WindowV>::empty());
        assert(crate::keyed::views_of(raw_skipped@) =~= Seq::<Seq<char>>::empty());
        assert(skipped_fold(tl.take(0)) =~= Seq::<Seq<char>>::empty());
    }
    while i < lines.len()
        invariant
            text.is_ascii(),
            lines.deep_view() =~~= split_on(text@, '\n'),
            forall|k: int| 0 <= k < lines@.len() ==> (#[trigger] lines@[k]).is_ascii(),
            tl == split_on(text@, '\n').drop_first(),
            1 <= i <= lines@.len(),
            lines@.len() == tl.len() + 1,
            sorted_unique(v@),
            keys_ascii(v@),
            windows_fold(tl.take(i - 1)) == Some(entry_map(v@)),
            crate::keyed::views_of(raw_skipped@) =~= skipped_fold(tl.take(i - 1)),
            forall|k: int| 0 <= k < raw_skipped@.len() ==> (#[trigger] raw_skipped@[k]).is_ascii(),
        decreases lines@.len() - i,
    {
        let line = lines[i];
        let n = line.unicode_len();
        proof {
            assert(lines@[i as int]@ == lines.deep_view()[i as int]);
            assert(tl[i - 1] == lines.deep_view()[i as int]);
            assert(tl.take(i as int).drop_last() =~= tl.take(i - 1));
            assert(tl.take(i as int).last() == tl[i - 1]);
        }
        let disabled = if n > 0 {
            let b = line.get_ascii(0);
            proof {
                assert('\0' <= line@[0] <= '\u{7f}');
                assert((b == 58) == (line@[0] == ':'));
            }
            b == 58
        } else {
            false
        };
        proof {
            assert(disabled == is_disabled_row(tl[i - 1]));
        }
        if disabled {
            let rest = line.substring_ascii(1, n);
            proof {
                assert(rest@ =~= tl[i - 1].drop_first());
            }
            match get_window_name(rest) {
                Some(p) => {
                    let ghost old_raw = raw_skipped@;
                    raw_skipped.push(p.0);
                    proof {
                        assert(crate::keyed::views_of(raw_skipped@) =~= crate::keyed::views_of(
                            old_raw,
                        ).push(p.0@));
                    }
                },
                None => {
                    proof {
                        lemma_windows_fold_none(tl, i as int);
                    }
                    return Err("malformed disabled row in the window table".to_owned());
                },
            }
        } else {
            match parse_window_row(line) {
                Some(e) => {
                    upsert(&mut v, e.key, e.val);
                },
                None => {
                    proof {
                        lemma_windows_fold_none(tl, i as int);
                    }
                    return Err("malformed row in the window table".to_owned());
                },
            }
        }
        i = i + 1;
    }
    proof {
        assert(tl.take(i - 1) =~= tl);
    }
    let mut filtered: Vec<String> = Vec::new();
    let mut k: usize = 0;
    let ghost m = entry_map(v@);
    let ghost skv = crate::keyed::views_of(raw_skipped@);
    proof {
        assert(skv.take(0) =~= Seq::<Seq<char>>::empty());
        assert(crate::keyed::views_of(filtered@) =~= Seq::<Seq<char>>::empty());
        assert(filter_not_in(skv.take(0), m) =~= Seq::<Seq<char>>::empty());
    }
    while k < raw_skipped.len()
        invariant
            0 <= k <= raw_skipped@.len(),
            skv == crate::keyed::views_of(raw_skipped@),
            m == entry_map(v@),
            forall|t: int| 0 <= t < raw_skipped@.len() ==> (#[trigger] raw_skipped@[t]).is_ascii(),
            forall|t: int| 0 <= t < filtered@.len() ==> (#[trigger] filtered@[t]).is_ascii(),
            crate::keyed::views_of(filtered@) =~= filter_not_in(skv.take(k as int), m),
        decreases raw_skipped@.len() - k,
    {
        proof {
            assert(skv.take(k + 1).drop_last() =~= skv.take(k as int));
            assert(skv.take(k + 1).last() == skv[k as int]);
            assert(skv[k as int] == raw_skipped@[k as int]@);
        }
        let present = crate::keyed::map_contains_key(&v, &raw_skipped[k]);
        if !present {
            let ghost oldf = filtered@;
            let name = raw_skipped[k].clone();
            filtered.push(name);
            proof {
                assert(crate::keyed::views_of(filtered@) =~= crate::keyed::views_of(oldf).push(
                    raw_skipped@[k as int]@,
                ));
            }
        }
        k = k + 1;
    }
    proof {
        assert(skv.take(k as int) =~= skv);
    }
    let sorted = crate::keyed::sort_strings(filtered);
    Ok((v, sorted))
}

/// Reads the embedded correction-factor table.
pub fn read_adcf_table() -> (r: Result<Vec<Entry<Adcf>>, String>)
    ensures
        match r {
            Ok(v) => {
                &&& sorted_unique(v@)
                &&& keys_ascii(v@)
                &&& adcf_table_map(crate::refdata::ADCF_TABLE@) == Some(entry_map(v@))
            },
            Err(_) => !crate::refdata::ADCF_TABLE.is_ascii() || adcf_table_map(
                crate::refdata::ADCF_TABLE@,
            ) is None,
        },
{
    parse_adcf_text(crate::refdata::ADCF_TABLE)
}

/// Reads the embedded independent-correction table.
pub fn read_aicf_table() -> (r: Result<Vec<Entry<Aicf>>, String>)
    ensures
        match r {
            Ok(v) => {
                &&& sorted_unique(v@)
                &&& keys_ascii(v@)
                &&& aicf_table_map(crate::refdata::AICF_TABLE@) == Some(entry_map(v@))
            },
            Err(_) => !crate::refdata::AICF_TABLE.is_ascii() || aicf_table_map(
                crate::refdata::AICF_TABLE@,
            ) is None,
        },
{
    parse_aicf_text(crate::refdata::AICF_TABLE)
}

/// Reads the embedded window table: the active windows and the disabled
/// names that no active window supersedes.
pub fn read_windows_table() -> (r: Result<(Vec<Entry<Window>>, Vec<String>), String>)
    ensures
        match r {
            Ok(p) => {
                &&& sorted_unique(p.0@)
                &&& keys_ascii(p.0@)
                &&& windows_table_map(crate::refdata::WINDOWS_TABLE@) == Some(entry_map(p.0@))
                &&& crate::keyed::sorted_dup(crate::keyed::views_of(p.1@))
                &&& crate::keyed::views_of(p.1@).to_multiset() == filter_not_in(
                    skipped_names(crate::refdata::WINDOWS_TABLE@),
                    entry_map(p.0@),
                ).to_multiset()
                &&& forall|i: int| 0 <= i < p.1@.len() ==> (#[trigger] p.1@[i]).is_ascii()
            },
            Err(_) => !crate::refdata::WINDOWS_TABLE.is_ascii() || windows_table_map(
                crate::refdata::WINDOWS_TABLE@,
            ) is None,
        },
{
    parse_windows_text(crate::refdata::WINDOWS_TABLE)
}

/// The reference registry: all three parsed tables, built once per run and
/// read-only thereafter.
pub struct ReferenceRegistry {
    pub adcfs: Vec<Entry<Adcf>>,
    pub aicfs: Vec<Entry<Aicf>>,
    pub windows: Vec<Entry<Window>>,
    pub skipped_windows: Vec<String>,
}

impl ReferenceRegistry {
    /// Well-formedness: each table sorted by key, keys ASCII, and the
    /// contents agreeing with the embedded reference texts.
    pub open spec fn wf(&self) -> bool {
        &&& sorted_unique(self.adcfs@)
        &&& keys_ascii(self.adcfs@)
        &&& adcf_table_map(crate::refdata::ADCF_TABLE@) == Some(entry_map(self.adcfs@))
        &&& sorted_unique(self.aicfs@)
        &&& keys_ascii(self.aicfs@)
        &&& aicf_table_map(crate::refdata::AICF_TABLE@) == Some(entry_map(self.aicfs@))
        &&& sorted_unique(self.windows@)
        &&& keys_ascii(self.windows@)
        &&& windows_table_map(crate::refdata::WINDOWS_TABLE@) == Some(entry_map(self.windows@))
        &&& crate::keyed::sorted_dup(crate::keyed::views_of(self.skipped_windows@))
        &&& crate::keyed::views_of(self.skipped_windows@).to_multiset() == filter_not_in(
            skipped_names(crate::refdata::WINDOWS_TABLE@),
            entry_map(self.windows@),
        ).to_multiset()
        &&& forall|i: int|
            0 <= i < self.skipped_windows@.len() ==> (#[trigger] self.skipped_windows@[i]).is_ascii()
    }

    /// Parses all three embedded tables.
    pub fn build() -> (r: Result<ReferenceRegistry, String>)
        ensures
            match r {
                Ok(reg) => reg.wf(),
                Err(_) => {
                    ||| !crate::refdata::ADCF_TABLE.is_ascii()
                    ||| adcf_table_map(crate::refdata::ADCF_TABLE@) is None
                    ||| !crate::refdata::AICF_TABLE.is_ascii()
                    ||| aicf_table_map(crate::refdata::AICF_TABLE@) is None
                    ||| !crate::refdata::WINDOWS_TABLE.is_ascii()
                    ||| windows_table_map(crate::refdata::WINDOWS_TABLE@) is None
                },
            },
    {
        let adcfs = match read_adcf_table() {
            Ok(v) => v,
            Err(e) => {
                return Err(e);
            },
        };
        let aicfs = match read_aicf_table() {
            Ok(v) => v,
            Err(e) => {
                return Err(e);
            },
        };
        let (windows, skipped_windows) = match read_windows_table() {
            Ok(p) => p,
            Err(e) => {
                return Err(e);
            },
        };
        Ok(ReferenceRegistry { adcfs, aicfs, windows, skipped_windows })
    }
}

/// The tuning exponents of a parsed record lie within the integer field
/// range.
pub open spec fn adcf_bounded(a: AdcfV) -> bool {
    &&& -(INT_FIELD_MAX as int) <= a.g <= INT_FIELD_MAX as int
    &&& -(INT_FIELD_MAX as int) <= a.p <= INT_FIELD_MAX as int
}

pub proof fn lemma_adcf_fold_bounds(lines: Seq<Seq<char>>, k: Seq<char>)
    requires
        adcf_fold(lines) is Some,
        adcf_fold(lines)->Some_0.contains_key(k),
    ensures
        adcf_bounded(adcf_fold(lines)->Some_0[k]),
    decreases lines.len(),
{
    if lines.len() > 0 {
        let prev = adcf_fold(lines.drop_last())->Some_0;
        let kv = parse_adcf_line(lines.last())->Some_0;
        if k == kv.0 {
        } else {
            lemma_adcf_fold_bounds(lines.drop_last(), k);
        }
    }
}

/// Every correction-factor record of a well-formed registry has bounded
/// tuning exponents.
pub proof fn lemma_registry_adcf_bounds(reg: ReferenceRegistry, i: int)
    requires
        reg.wf(),
        0 <= i < reg.adcfs@.len(),
    ensures
        adcf_bounded(reg.adcfs@[i].val@),
{
    crate::keyed::lemma_entry_at_sorted(reg.adcfs@, i);
    lemma_adcf_fold_bounds(
        split_on(crate::refdata::ADCF_TABLE@, '\n').drop_first(),
        reg.adcfs@[i].key@,
    );
}

/// The derived window name of any row is exactly its first gas token, an
/// underscore, and the integer part of its first parameter token.
pub proof fn lemma_derived_name_shape(l: Seq<char>)
    requires
        window_name_parts(l) is Some,
    ensures
        ({
            let p = window_name_parts(l)->Some_0;
            let left = l.take(crate::text::idx_of(l, ':'));
            let right = l.skip(crate::text::idx_of(l, ':') + 1);
            &&& p.0 == p.1 + seq!['_'] + p.2
            &&& p.1 == ws_tokens(right)[0]
            &&& p.2 == ws_tokens(left)[0].take(crate::text::idx_of(ws_tokens(left)[0], '.'))
        }),
{
}

/// A row with no scale-factor token has scale factor exactly one.
pub proof fn lemma_default_scale_factor(l: Seq<char>)
    requires
        crate::scan::sf_token(l) is None,
    ensures
        window_sf(l) == MICRO_SCALE as int,
{
}

/// A disabled name that an active window supersedes never survives the
/// post-parse filtering of the disabled list.
pub proof fn lemma_superseded_disabled_name_absent(
    names: Seq<Seq<char>>,
    m: Map<Seq<char>, WindowV>,
    n: Seq<char>,
)
    requires
        m.contains_key(n),
    ensures
        !filter_not_in(names, m).contains(n),
    decreases names.len(),
{
    if names.len() > 0 {
        lemma_superseded_disabled_name_absent(names.drop_last(), m, n);
        let rest = filter_not_in(names.drop_last(), m);
        if !m.contains_key(names.last()) {
            if filter_not_in(names, m).contains(n) {
                let i = choose|i: int|
                    0 <= i < filter_not_in(names, m).len() && filter_not_in(names, m)[i] == n;
                if i < rest.len() {
                    assert(rest.contains(n));
                } else {
                    assert(filter_not_in(names, m)[i] == names.last());
                }
            }
        }
    }
}

/// An active window name is never reported as a disabled window: the
/// registry's disabled list holds no key of the active window map.
pub proof fn lemma_active_window_not_skipped(reg: ReferenceRegistry, n: Seq<char>)
    requires
        reg.wf(),
        entry_map(reg.windows@).contains_key(n),
    ensures
        !crate::keyed::views_of(reg.skipped_windows@).contains(n),
{
    broadcast use vstd::seq_lib::group_to_multiset_ensures;

    lemma_superseded_disabled_name_absent(
        skipped_names(crate::refdata::WINDOWS_TABLE@),
        entry_map(reg.windows@),
        n,
    );
    let sk = crate::keyed::views_of(reg.skipped_windows@);
    let fl = filter_not_in(skipped_names(crate::refdata::WINDOWS_TABLE@), entry_map(reg.windows@));
    if sk.contains(n) {
        sk.to_multiset_ensures();
        fl.to_multiset_ensures();
        assert(sk.to_multiset().count(n) > 0);
        assert(fl.contains(n));
    }
}

} // verus!
