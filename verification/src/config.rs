//! The configuration file: one line `name value` for each bound variable.
//!
//! Loading goes line by line. A line whose first word names a bound variable
//! of the collection gives that variable the rest of the line as its value;
//! every other line is passed over. Saving writes the bound variables in the
//! order in which the collection declares them. Reading and writing the file
//! is the caller's part: the library takes and gives lines.
//!
//! A variable has its value twice. The configuration keeps a plain value, of
//! which every contract here speaks. The engine has the value in the slot
//! that the variable is bound to. Loading puts what it read into both;
//! saving first takes from the slot what the engine has made of it.

use vstd::prelude::*;
use crate::defaults::{
    float_text, index_of_name, is_word, search, took_its_slot, well_named, word,
    DefaultCollection, DefaultLocation, Kind, Value, Variable,
};
use crate::keys::{
    first_scan_code, key_of_scan_code, no_scan_code, scan_code_of_key, scan_to_key, RSHIFT,
    RSHIFT_SCAN_CODE,
};
use crate::number::{
    format_hex, format_int, parse_decimal, parse_hex, parse_hexadecimal, parse_int, push_decimal,
    push_hexadecimal,
};
use crate::argv::value_of;
use crate::state::State;
use crate::text::{chars_eq, is_space, is_whitespace, push_char, to_chars, to_string, views};

verus! {

/// The first position from `i` on at which no white space stands; the length
/// of `s` where only white space is left.
pub open spec fn skip_spaces(s: Seq<char>, i: int) -> int
    decreases s.len() - i,
{
    if 0 <= i < s.len() && is_space(s[i]) {
        skip_spaces(s, i + 1)
    } else {
        i
    }
}

/// The first position from `i` on at which white space stands; the length of
/// `s` where none is left.
pub open spec fn word_end(s: Seq<char>, i: int) -> int
    decreases s.len() - i,
{
    if 0 <= i < s.len() && !is_space(s[i]) {
        word_end(s, i + 1)
    } else {
        i
    }
}

/// The end of `s[from..n]` without the white space at its end.
pub open spec fn trimmed_end(s: Seq<char>, from: int, n: int) -> int
    decreases n,
{
    if 0 <= from < n <= s.len() && is_space(s[n - 1]) {
        trimmed_end(s, from, n - 1)
    } else {
        n
    }
}

/// `v` without the pair of double quotes around it, where it has both.
pub open spec fn unquoted(v: Seq<char>) -> Seq<char> {
    if v.len() >= 2 && v[0] == '"' && v.last() == '"' {
        v.subrange(1, v.len() - 1)
    } else {
        v
    }
}

/// The name and the value of a line: its first word, and the rest of the
/// line without the white space and the pair of quotes around it. Nothing
/// where the line has no word, or nothing behind it.
pub open spec fn parse_line(line: Seq<char>) -> Option<(Seq<char>, Seq<char>)> {
    let a = skip_spaces(line, 0);
    let b = word_end(line, a);
    let c = skip_spaces(line, b);
    let d = trimmed_end(line, c, line.len() as int);
    if a < b && c < line.len() {
        Some((line.subrange(a, b), unquoted(line.subrange(c, d))))
    } else {
        None
    }
}

/// The variable `v` after it was given the text `text` of a configuration
/// file. Text that is no number of the variable's kind counts as zero. A key
/// is read as a scan code: the variable keeps the code, and holds the key
/// that the code stands for.
pub open spec fn loaded(v: Variable, text: Seq<char>) -> Variable {
    match v.value {
        Value::String(_) => Variable { value: Value::String(text), ..v },
        Value::Int(_) => Variable { value: Value::Int(or_zero(parse_int(text))), ..v },
        Value::IntHex(_) => Variable { value: Value::IntHex(or_zero(parse_hex(text))), ..v },
        Value::Float(_) => Variable { value: Value::Float(float_text(text)), ..v },
        Value::Key(_) => {
            let raw = or_zero(parse_int(text));
            Variable {
                value: Value::Key(scan_to_key(raw)),
                untranslated: raw,
                original_translated: scan_to_key(raw),
                ..v
            }
        },
    }
}

/// The number, or zero where there is none.
pub open spec fn or_zero(n: Option<int>) -> int {
    match n {
        Some(v) => v,
        None => 0,
    }
}

/// The variables after one line of the configuration file. The line counts
/// where its first word is the name of a variable and that variable is
/// bound; the first variable of that name decides.
pub open spec fn apply_line(vars: Seq<Variable>, line: Seq<char>) -> Seq<Variable> {
    match parse_line(line) {
        Some((name, text)) => {
            let i = index_of_name(vars, name, 0);
            if i < vars.len() && vars[i].bound {
                vars.update(i, loaded(vars[i], text))
            } else {
                vars
            }
        },
        None => vars,
    }
}

/// The variables after the first `n` of `lines`, taken in order.
pub open spec fn apply_lines(vars: Seq<Variable>, lines: Seq<Seq<char>>, n: int) -> Seq<Variable>
    decreases n,
{
    if n <= 0 {
        vars
    } else {
        apply_line(apply_lines(vars, lines, n - 1), lines[n - 1])
    }
}

/// The scan code that is written for a key variable. The right shift key is
/// always written as 54. Otherwise the code that the file gave is written
/// again while it still stands for the key; else the first code of the
/// table that stands for the key; and the key code itself where the table
/// has none.
pub open spec fn key_code(v: Variable) -> int {
    let live = v.value->Key_0;
    if live == RSHIFT {
        RSHIFT_SCAN_CODE as int
    } else if v.untranslated != 0 && scan_to_key(v.untranslated) == live {
        v.untranslated
    } else if no_scan_code(live) {
        live
    } else {
        choose|code: int| first_scan_code(live, code)
    }
}

/// The text that is written for the value of a variable: a number in
/// decimal, a hex-int in hexadecimal without prefix, a float as its
/// literal, a string between double quotes, a key as its scan code.
pub open spec fn value_text(v: Variable) -> Seq<char> {
    match v.value {
        Value::Key(_) => format_int(key_code(v)),
        Value::Int(n) => format_int(n),
        Value::IntHex(n) => format_hex(n),
        Value::Float(t) => t,
        Value::String(t) => seq!['"'] + t + seq!['"'],
    }
}

/// The line that is written for a variable.
pub open spec fn line_of(v: Variable) -> Seq<char> {
    v.name + seq![' '] + value_text(v)
}

/// The lines that are written for the first `n` of `vars`: one for each that
/// is bound, in order.
pub open spec fn saved_lines(vars: Seq<Variable>, n: int) -> Seq<Seq<char>>
    decreases n,
{
    if n <= 0 {
        Seq::empty()
    } else if vars[n - 1].bound {
        saved_lines(vars, n - 1).push(line_of(vars[n - 1]))
    } else {
        saved_lines(vars, n - 1)
    }
}

/// The name and the value of a line, as `parse_line` says.
pub fn split_line(line: &str) -> (r: Option<(String, String)>)
    ensures
        match r {
            Some((name, text)) => parse_line(line@) == Some((name@, text@)),
            None => parse_line(line@) is None,
        },
{
    let s = to_chars(line);
    let n = s.len();
    let mut a: usize = 0;
    while a < n && is_whitespace(s[a])
        invariant
            a <= n,
            n == s@.len(),
            skip_spaces(s@, 0) == skip_spaces(s@, a as int),
        decreases n - a,
    {
        a += 1;
    }
    let mut b: usize = a;
    while b < n && !is_whitespace(s[b])
        invariant
            a <= b <= n,
            n == s@.len(),
            word_end(s@, a as int) == word_end(s@, b as int),
        decreases n - b,
    {
        b += 1;
    }
    let mut c: usize = b;
    while c < n && is_whitespace(s[c])
        invariant
            b <= c <= n,
            n == s@.len(),
            skip_spaces(s@, b as int) == skip_spaces(s@, c as int),
        decreases n - c,
    {
        c += 1;
    }
    if a >= b || c >= n {
        return None;
    }
    let mut d: usize = n;
    while d > c && is_whitespace(s[d - 1])
        invariant
            c <= d <= n,
            n == s@.len(),
            trimmed_end(s@, c as int, n as int) == trimmed_end(s@, c as int, d as int),
        decreases d,
    {
        d -= 1;
    }
    let name = to_string(&s, a, b);
    let ghost v = s@.subrange(c as int, d as int);
    let text = if d - c >= 2 && s[c] == '"' && s[d - 1] == '"' {
        assert(v[0] == s@[c as int] && v.last() == s@[d - 1]);
        assert(v.subrange(1, v.len() - 1) =~= s@.subrange(c + 1, d - 1));
        to_string(&s, c + 1, d - 1)
    } else {
        assert(d - c >= 2 ==> v[0] == s@[c as int] && v.last() == s@[d - 1]);
        to_string(&s, c, d)
    };
    Some((name, text))
}

/// Gives the variable `default` the text `strparm` of a configuration file:
/// the variable becomes `loaded`, and its slot takes the new value for the
/// engine to find.
pub fn set_variable(default: &mut crate::defaults::Default, strparm: &str)
    ensures
        final(default)@ == loaded(old(default)@, strparm@),
        final(default).location == old(default).location,
        old(default).wf() ==> final(default).wf(),
{
    proof {
        if default@.wf() {
            lemma_loaded_wf(default@, strparm@);
        }
    }
    let text = to_chars(strparm);
    match default.value.kind() {
        Kind::String => {
            default.value.set_string(strparm.to_owned());
        },
        Kind::Int => {
            let v = match parse_decimal(&text) {
                Some(v) => v,
                None => 0,
            };
            default.value.set_int(v);
        },
        Kind::IntHex => {
            let v = match parse_hexadecimal(&text) {
                Some(v) => v,
                None => 0,
            };
            default.value.set_int_hex(v);
        },
        Kind::Key => {
            let raw = match parse_decimal(&text) {
                Some(v) => v,
                None => 0,
            };
            let key = key_of_scan_code(raw);
            default.untranslated = raw;
            default.original_translated = key;
            default.value.set_key(key);
        },
        Kind::Float => {
            default.value.set_float(strparm.to_owned());
        },
    }
    default.publish();
}

/// Appends the text that is written for the value of `default`.
fn push_value(out: &mut String, default: &crate::defaults::Default)
    ensures
        final(out)@ == old(out)@ + value_text(default@),
{
    match &default.value {
        crate::defaults::DefaultLocationEnum::Key(live) => {
            let live: i32 = *live;
            let code: i32 = if live == RSHIFT {
                RSHIFT_SCAN_CODE
            } else if default.untranslated != 0 && key_of_scan_code(default.untranslated) == live {
                default.untranslated
            } else {
                match scan_code_of_key(live) {
                    Some(code) => {
                        proof {
                            let chosen = choose|c: int| first_scan_code(live as int, c);
                            assert(first_scan_code(live as int, code as int));
                            assert(first_scan_code(live as int, chosen));
                            assert(chosen == code);
                        }
                        code
                    },
                    None => live,
                }
            };
            assert(code == key_code(default@));
            push_decimal(out, code);
        },
        crate::defaults::DefaultLocationEnum::Int(v) => {
            push_decimal(out, *v);
        },
        crate::defaults::DefaultLocationEnum::IntHex(v) => {
            push_hexadecimal(out, *v);
        },
        crate::defaults::DefaultLocationEnum::Float(t) => {
            out.append(t.as_str());
        },
        crate::defaults::DefaultLocationEnum::String(t) => {
            push_char(out, '"');
            out.append(t.as_str());
            push_char(out, '"');
            assert(out@ =~= old(out)@ + (seq!['"'] + t@ + seq!['"']));
        },
    }
}

/// The line that is written for the variable `default`.
pub fn save_line(default: &crate::defaults::Default) -> (line: String)
    ensures
        line@ == line_of(default@),
{
    let mut line = default.name.clone();
    push_char(&mut line, ' ');
    push_value(&mut line, default);
    assert(line@ =~= line_of(default@));
    line
}

impl DefaultCollection {
    /// Takes one line of the configuration file of the collection. Says
    /// whether the line gave a variable its value.
    pub fn load_line(&mut self, line: &str) -> (applied: bool)
        ensures
            final(self).variables() == apply_line(old(self).variables(), line@),
            final(self).slots() == old(self).slots(),
            final(self).file_name == old(self).file_name,
            old(self).wf() ==> final(self).wf(),
            applied == match parse_line(line@) {
                Some((name, _)) => {
                    let i = index_of_name(old(self).variables(), name, 0);
                    i < old(self).variables().len() && old(self).variables()[i].bound
                },
                None => false,
            },
    {
        let (name, text) = match split_line(line) {
            Some(pair) => pair,
            None => {
                return false;
            },
        };
        let i = match search(self, name.as_str()) {
            Some(i) => i,
            None => {
                return false;
            },
        };
        if !self.defaults[i].bound {
            return false;
        }
        let mut default = self.defaults[i].clone();
        assert(old(self).wf() ==> default.wf());
        set_variable(&mut default, text.as_str());
        let ghost before = self.variables();
        self.defaults.set(i, default);
        assert(self.variables() =~= before.update(i as int, loaded(before[i as int], text@)));
        assert(self.slots() =~= old(self).slots());
        true
    }

    /// The lines of the configuration file of the collection: one for each
    /// bound variable, in the order of the collection. The values are those
    /// that the variables hold, whatever their slots hold.
    pub fn saved(&self) -> (lines: Vec<String>)
        ensures
            views(lines@) == saved_lines(self.variables(), self.defaults@.len() as int),
    {
        let mut lines: Vec<String> = Vec::new();
        let mut i: usize = 0;
        assert(views(lines@) =~= saved_lines(self.variables(), 0));
        while i < self.defaults.len()
            invariant
                i <= self.defaults@.len(),
                views(lines@) == saved_lines(self.variables(), i as int),
            decreases self.defaults@.len() - i,
        {
            if self.defaults[i].bound {
                let ghost before = lines@;
                lines.push(save_line(&self.defaults[i]));
                assert(views(lines@) =~= views(before).push(line_of(self.variables()[i as int])));
            }
            i += 1;
        }
        lines
    }

    /// Takes for every bound variable of the collection the value that its
    /// slot holds at this moment: what the engine has made of it. Each
    /// variable is as `took_its_slot` says: names, kinds, binding and scan
    /// codes stay, a new value is a well-formed one of the kind, and a
    /// variable that is not bound, or whose slot is of another kind, stays as
    /// it is. Which values the slots gave is not for this contract to say.
    pub fn refresh(&mut self)
        ensures
            refreshed(old(self).variables(), final(self).variables(), old(self).slots()),
            final(self).slots() == old(self).slots(),
            final(self).file_name == old(self).file_name,
            old(self).wf() ==> final(self).wf(),
    {
        let ghost before = self.variables();
        let ghost slots = self.slots();
        let mut i: usize = 0;
        while i < self.defaults.len()
            invariant
                i <= self.defaults@.len(),
                self.defaults@.len() == before.len(),
                before == old(self).variables(),
                slots == old(self).slots(),
                self.file_name == old(self).file_name,
                self.slots() == slots,
                old(self).wf() ==> self.wf(),
                forall|k: int|
                    0 <= k < i ==> took_its_slot(
                        before[k],
                        #[trigger] self.variables()[k],
                        slots[k].slot_kind(),
                    ),
                forall|k: int| i <= k < before.len() ==> #[trigger] self.variables()[k] == before[k],
            decreases self.defaults@.len() - i,
        {
            let mut default = self.defaults[i].clone();
            let ghost vars = self.variables();
            assert(default@ == vars[i as int]);
            assert(default.location == slots[i as int]);
            assert(old(self).wf() ==> default.wf());
            default.refresh();
            let ghost fresh = default@;
            self.defaults.set(i, default);
            assert(self.slots() =~= slots);
            assert forall|k: int| 0 <= k < i + 1 implies took_its_slot(
                before[k],
                #[trigger] self.variables()[k],
                slots[k].slot_kind(),
            ) by {
                if k == i {
                    assert(self.variables()[k] == fresh);
                } else {
                    assert(self.variables()[k] == vars[k]);
                }
            }
            assert forall|k: int| i + 1 <= k < before.len() implies #[trigger] self.variables()[k]
                == before[k] by {
                assert(self.variables()[k] == vars[k]);
            }
            i += 1;
        }
    }
}

impl State {
    /// Gives the variables of `collection` the values that the lines of its
    /// configuration file hold, line by line.
    pub fn load_default_collection(collection: &mut DefaultCollection, lines: &Vec<String>)
        ensures
            final(collection).variables() == apply_lines(
                old(collection).variables(),
                views(lines@),
                lines@.len() as int,
            ),
            final(collection).slots() == old(collection).slots(),
            final(collection).file_name == old(collection).file_name,
            old(collection).wf() ==> final(collection).wf(),
    {
        let mut k: usize = 0;
        while k < lines.len()
            invariant
                k <= lines@.len(),
                collection.variables() == apply_lines(
                    old(collection).variables(),
                    views(lines@),
                    k as int,
                ),
                collection.file_name == old(collection).file_name,
                collection.slots() == old(collection).slots(),
                old(collection).wf() ==> collection.wf(),
            decreases lines@.len() - k,
        {
            collection.load_line(lines[k].as_str());
            k += 1;
        }
    }

    /// The lines of the configuration file of `collection`, after every bound
    /// variable took the value that its slot holds at this moment.
    pub fn save_default_collection(collection: &mut DefaultCollection) -> (lines: Vec<String>)
        ensures
            refreshed(
                old(collection).variables(),
                final(collection).variables(),
                old(collection).slots(),
            ),
            final(collection).slots() == old(collection).slots(),
            final(collection).file_name == old(collection).file_name,
            old(collection).wf() ==> final(collection).wf(),
            views(lines@) == saved_lines(
                final(collection).variables(),
                final(collection).defaults@.len() as int,
            ),
    {
        collection.refresh();
        collection.saved()
    }

    /// The lines of both configuration files, the main one first, after every
    /// bound variable took the value that its slot holds at this moment.
    pub fn save_defaults(&mut self) -> (lines: (Vec<String>, Vec<String>))
        ensures
            refreshed(
                old(self).doom_defaults.variables(),
                final(self).doom_defaults.variables(),
                old(self).doom_defaults.slots(),
            ),
            refreshed(
                old(self).extra_defaults.variables(),
                final(self).extra_defaults.variables(),
                old(self).extra_defaults.slots(),
            ),
            views(lines.0@) == saved_lines(
                final(self).doom_defaults.variables(),
                final(self).doom_defaults.defaults@.len() as int,
            ),
            views(lines.1@) == saved_lines(
                final(self).extra_defaults.variables(),
                final(self).extra_defaults.defaults@.len() as int,
            ),
            final(self).doom_defaults.file_name == old(self).doom_defaults.file_name,
            final(self).extra_defaults.file_name == old(self).extra_defaults.file_name,
            final(self).doom_defaults.slots() == old(self).doom_defaults.slots(),
            final(self).extra_defaults.slots() == old(self).extra_defaults.slots(),
            old(self).wf() ==> final(self).wf(),
            *final(self) == (State {
                doom_defaults: final(self).doom_defaults,
                extra_defaults: final(self).extra_defaults,
                ..*old(self)
            }),
    {
        let main = Self::save_default_collection(&mut self.doom_defaults);
        let extra = Self::save_default_collection(&mut self.extra_defaults);
        (main, extra)
    }
}

/// Whether each of `after` is the one of `before` at its place, after it
/// took the value that its slot held. Names, kinds, binding and scan codes
/// are those of `before`, and a variable that is not bound is as it was.
pub open spec fn refreshed(
    before: Seq<Variable>,
    after: Seq<Variable>,
    slots: Seq<DefaultLocation>,
) -> bool {
    &&& after.len() == before.len()
    &&& slots.len() == before.len()
    &&& forall|k: int|
        0 <= k < before.len() ==> took_its_slot(
            before[k],
            #[trigger] after[k],
            slots[k].slot_kind(),
        )
}

/// The path of a configuration file: the value of its flag where the command
/// line gives one, else the file `name` in the directory `dir`.
pub open spec fn config_path(
    args: Seq<Seq<char>>,
    flag: Seq<char>,
    dir: Seq<char>,
    name: Seq<char>,
) -> Seq<char> {
    match value_of(args, flag) {
        Some(path) => path,
        None => dir + name,
    }
}

impl State {
    /// Settles the directory of the configuration files: `config_dir`, or
    /// `default_dir` where `config_dir` is empty. The caller finds the
    /// default and makes the directory.
    pub fn set_config_dir(&mut self, config_dir: &str, default_dir: &str)
        ensures
            final(self).config_dir@ == (if config_dir@.len() == 0 {
                default_dir@
            } else {
                config_dir@
            }),
            *final(self) == (State { config_dir: final(self).config_dir, ..*old(self) }),
    {
        if config_dir.unicode_len() == 0 {
            self.config_dir = default_dir.to_owned();
        } else {
            self.config_dir = config_dir.to_owned();
        }
    }

    /// Settles the paths of the two configuration files. The flags
    /// `--config` and `--extra-config` name them; without a flag a file has
    /// its usual name and stands in the configuration directory.
    pub fn locate_defaults(&mut self)
        ensures
            final(self).doom_defaults.file_name@ == config_path(
                views(old(self).args@),
                "--config"@,
                old(self).config_dir@,
                old(self).default_main_config@,
            ),
            final(self).extra_defaults.file_name@ == config_path(
                views(old(self).args@),
                "--extra-config"@,
                old(self).config_dir@,
                old(self).default_extra_config@,
            ),
            final(self).doom_defaults.defaults == old(self).doom_defaults.defaults,
            final(self).extra_defaults.defaults == old(self).extra_defaults.defaults,
            *final(self) == (State {
                doom_defaults: final(self).doom_defaults,
                extra_defaults: final(self).extra_defaults,
                ..*old(self)
            }),
    {
        let main = match self.parm_value("--config") {
            Some(path) => path,
            None => self.config_dir.clone().concat(self.default_main_config.as_str()),
        };
        let extra = match self.parm_value("--extra-config") {
            Some(path) => path,
            None => self.config_dir.clone().concat(self.default_extra_config.as_str()),
        };
        self.doom_defaults.file_name = main;
        self.extra_defaults.file_name = extra;
    }

    /// Gives the variables of both collections the values that the lines of
    /// their configuration files hold. A file that could not be read has no
    /// lines; one that broke off has the lines before the break.
    pub fn load_defaults(&mut self, main: &Vec<String>, extra: &Vec<String>)
        ensures
            final(self).doom_defaults.variables() == apply_lines(
                old(self).doom_defaults.variables(),
                views(main@),
                main@.len() as int,
            ),
            final(self).extra_defaults.variables() == apply_lines(
                old(self).extra_defaults.variables(),
                views(extra@),
                extra@.len() as int,
            ),
            final(self).doom_defaults.file_name == old(self).doom_defaults.file_name,
            final(self).extra_defaults.file_name == old(self).extra_defaults.file_name,
            final(self).doom_defaults.slots() == old(self).doom_defaults.slots(),
            final(self).extra_defaults.slots() == old(self).extra_defaults.slots(),
            old(self).wf() ==> final(self).wf(),
            *final(self) == (State {
                doom_defaults: final(self).doom_defaults,
                extra_defaults: final(self).extra_defaults,
                ..*old(self)
            }),
    {
        Self::load_default_collection(&mut self.doom_defaults, main);
        Self::load_default_collection(&mut self.extra_defaults, extra);
    }
}

/// A well-formed variable is well formed after it was given a text.
pub proof fn lemma_loaded_wf(v: Variable, text: Seq<char>)
    requires
        v.wf(),
    ensures
        loaded(v, text).wf(),
        loaded(v, text).value.kind() == v.value.kind(),
        loaded(v, text).name == v.name,
        loaded(v, text).bound == v.bound,
{
    crate::defaults::lemma_float_text_is_literal(text);
    crate::number::lemma_parse_hex_in_range(text);
}

impl DefaultCollection {
    /// Whether the names of the collection are words, no two of them the
    /// same: what a configuration file needs to tell its variables apart.
    pub fn has_distinct_words(&self) -> (r: bool)
        ensures
            r == well_named(self.variables()),
    {
        let ghost vars = self.variables();
        let mut i: usize = 0;
        while i < self.defaults.len()
            invariant
                i <= self.defaults@.len(),
                vars == self.variables(),
                forall|a: int| 0 <= a < i ==> is_word((#[trigger] vars[a]).name),
                forall|a: int, b: int|
                    0 <= a < b < i ==> (#[trigger] vars[a]).name != (#[trigger] vars[b]).name,
            decreases self.defaults@.len() - i,
        {
            let name = to_chars(self.defaults[i].name.as_str());
            assert(vars[i as int].name == name@);
            if !word(&name) {
                return false;
            }
            let mut j: usize = 0;
            while j < i
                invariant
                    j <= i < self.defaults@.len(),
                    vars == self.variables(),
                    name@ == vars[i as int].name,
                    forall|a: int| 0 <= a < j ==> (#[trigger] vars[a]).name != name@,
                decreases i - j,
            {
                let other = to_chars(self.defaults[j].name.as_str());
                assert(vars[j as int].name == other@);
                if chars_eq(&other, &name) {
                    return false;
                }
                j += 1;
            }
            i += 1;
        }
        true
    }
}

} // verus!
