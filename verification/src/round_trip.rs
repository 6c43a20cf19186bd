//! What saving and loading a configuration file keep.
//!
//! A value that is written and read again is the same value: an int, a
//! hex-int, a float literal, a string. A key is written as a scan code, and
//! read again it is the key that the code stands for. A variable that was
//! loaded from a file and not changed since is saved with the scan code of
//! the file, but for the right shift key, which is always written as 54.
//! Loading changes values only: names, kinds and bindings stay.

use vstd::prelude::*;
use crate::config::{
    apply_line, apply_lines, key_code, line_of, loaded, parse_line, saved_lines, skip_spaces,
    trimmed_end, unquoted, value_text, word_end,
};
use crate::defaults::{
    distinct_names, index_of_name, is_word, lemma_float_text_is_literal,
    lemma_index_of_name_bounds, Value, Variable,
};
use crate::keys::{first_scan_code, no_scan_code, scan_to_key, RSHIFT, RSHIFT_SCAN_CODE, SCAN_TO_KEY};
use crate::number::{
    digits_of, format_int, is_lower_hex_digit, lemma_digits_of, lemma_float_literal_ends,
    lemma_format_parse_hex, lemma_format_parse_int,
};
use crate::text::is_space;

verus! {

/// Whether `fresh` declares what `saved` declares: as many variables, each
/// with the same name and kind, and the same ones bound.
pub open spec fn same_declarations(saved: Seq<Variable>, fresh: Seq<Variable>) -> bool {
    &&& fresh.len() == saved.len()
    &&& forall|i: int|
        0 <= i < saved.len() ==> {
            &&& (#[trigger] fresh[i]).name == saved[i].name
            &&& fresh[i].value.kind() == saved[i].value.kind()
            &&& fresh[i].bound == saved[i].bound
        }
}

/// Whether the variable `v` can be saved and loaded again: its name is a
/// word, and it is well formed.
pub open spec fn can_round_trip(v: Variable) -> bool {
    is_word(v.name) && v.wf()
}

/// Whether the name of every bound variable of `vars` is a word.
pub open spec fn bound_names_are_words(vars: Seq<Variable>) -> bool {
    forall|i: int| 0 <= i < vars.len() && vars[i].bound ==> is_word((#[trigger] vars[i]).name)
}

/// The scan code that is written for a key is a 32-bit value.
pub proof fn lemma_key_code_in_range(v: Variable)
    requires
        v.wf(),
        v.value is Key,
    ensures
        i32::MIN <= key_code(v) <= i32::MAX,
{
    let live = v.value->Key_0;
    if !no_scan_code(live) {
        let s = choose|s: int| 0 <= s < 128 && SCAN_TO_KEY@[s] == live;
        lemma_first_scan_code_exists(live, s);
        let c = choose|c: int| first_scan_code(live, c);
        assert(first_scan_code(live, c));
    }
}

/// The variable `fresh` after the line that was saved for `saved` was loaded
/// into it: it takes the text of the line, where the line has one.
pub open spec fn reloaded_one(saved: Variable, fresh: Variable) -> Variable {
    match parse_line(line_of(saved)) {
        Some((_, text)) => loaded(fresh, text),
        None => fresh,
    }
}

/// The variables `fresh` after the lines for the first `n` of `saved` were
/// loaded into them, each bound variable from its own line.
pub open spec fn reloaded(saved: Seq<Variable>, fresh: Seq<Variable>, n: int) -> Seq<Variable> {
    Seq::new(
        fresh.len(),
        |i: int|
            if i < n && saved[i].bound {
                reloaded_one(saved[i], fresh[i])
            } else {
                fresh[i]
            },
    )
}

/// A word ends where it ends.
proof fn lemma_word_end(s: Seq<char>, i: int, end: int)
    requires
        0 <= i <= end <= s.len(),
        forall|j: int| i <= j < end ==> !is_space(#[trigger] s[j]),
        end == s.len() || is_space(s[end]),
    ensures
        word_end(s, i) == end,
    decreases end - i,
{
    if i < end {
        assert(!is_space(s[i]));
        lemma_word_end(s, i + 1, end);
    }
}

/// Among the scan codes that stand for a key, one is the first.
proof fn lemma_first_scan_code_exists(key: int, s: int)
    requires
        0 <= s < 128,
        SCAN_TO_KEY@[s] == key,
    ensures
        exists|c: int| first_scan_code(key, c),
    decreases s,
{
    if exists|j: int| 0 <= j < s && SCAN_TO_KEY@[j] == key {
        let j = choose|j: int| 0 <= j < s && SCAN_TO_KEY@[j] == key;
        lemma_first_scan_code_exists(key, j);
    } else {
        assert(first_scan_code(key, s));
    }
}

/// The text that is written for a value is not empty and neither starts nor
/// ends with white space.
pub proof fn lemma_value_text_ends(v: Variable)
    requires
        v.wf(),
    ensures
        value_text(v).len() > 0,
        !is_space(value_text(v)[0]),
        !is_space(value_text(v).last()),
        !(v.value is String) ==> value_text(v)[0] != '"',
{
    match v.value {
        Value::Key(_) => {
            lemma_format_int_ends(key_code(v));
        },
        Value::Int(n) => {
            lemma_format_int_ends(n);
        },
        Value::IntHex(n) => {
            let m = if n < 0 {
                (n + 0x1_0000_0000) as nat
            } else {
                n as nat
            };
            lemma_digits_of(m, true);
            let d = digits_of(m, true);
            assert(is_lower_hex_digit(d[0]));
            assert(is_lower_hex_digit(d.last()));
        },
        Value::Float(t) => {
            lemma_float_literal_ends(t);
        },
        Value::String(t) => {
            let q = seq!['"'] + t + seq!['"'];
            assert(q[0] == '"');
            assert(q.last() == '"');
        },
    }
}

/// The decimal form of a number is not empty, holds no white space at
/// either end, and does not start with a double quote.
proof fn lemma_format_int_ends(n: int)
    ensures
        format_int(n).len() > 0,
        !is_space(format_int(n)[0]),
        !is_space(format_int(n).last()),
        format_int(n)[0] != '"',
{
    let m = if n < 0 {
        (-n) as nat
    } else {
        n as nat
    };
    lemma_digits_of(m, false);
    let d = digits_of(m, false);
    assert(is_lower_hex_digit(d[0]));
    assert(is_lower_hex_digit(d.last()));
    if n < 0 {
        let s = seq!['-'] + d;
        assert(s[0] == '-');
        assert(s.last() == d.last());
    }
}

/// The line that is written for a variable is read as the name of the
/// variable and the text of its value, without the quotes of a string.
pub proof fn lemma_line_parses(v: Variable)
    requires
        is_word(v.name),
        v.wf(),
    ensures
        parse_line(line_of(v)) == Some((v.name, unquoted(value_text(v)))),
{
    let line = line_of(v);
    let text = value_text(v);
    let n = v.name.len() as int;
    lemma_value_text_ends(v);
    assert(line.len() == n + 1 + text.len());
    assert(line[0] == v.name[0]);
    assert(!is_space(line[0]));
    assert(skip_spaces(line, 0) == 0);
    assert forall|j: int| 0 <= j < n implies !is_space(#[trigger] line[j]) by {
        assert(line[j] == v.name[j]);
    }
    assert(line[n] == ' ');
    lemma_word_end(line, 0, n);
    assert(line[n + 1] == text[0]);
    assert(skip_spaces(line, n + 1) == n + 1);
    assert(skip_spaces(line, n) == n + 1);
    assert(line[line.len() - 1] == text.last());
    assert(trimmed_end(line, n + 1, line.len() as int) == line.len());
    assert(line.subrange(0, n) =~= v.name);
    assert(line.subrange(n + 1, line.len() as int) =~= text);
}

/// The line that is written for a variable whose name is a word is a line
/// for that name, whatever its value is: it is read under the name of the
/// variable, or not at all.
pub proof fn lemma_own_line_names(v: Variable)
    requires
        is_word(v.name),
    ensures
        parse_line(line_of(v)) matches Some((name, _)) ==> name == v.name,
{
    let line = line_of(v);
    let n = v.name.len() as int;
    assert(line[0] == v.name[0]);
    assert(!is_space(line[0]));
    assert(skip_spaces(line, 0) == 0);
    assert forall|j: int| 0 <= j < n implies !is_space(#[trigger] line[j]) by {
        assert(line[j] == v.name[j]);
    }
    assert(line[n] == ' ');
    lemma_word_end(line, 0, n);
    assert(line.subrange(0, n) =~= v.name);
}

/// A value that is written and read again is the same value: any int, any
/// hex-int, a float literal, any string. The variable that takes it keeps
/// everything else.
pub proof fn lemma_value_round_trip(saved: Variable, fresh: Variable)
    requires
        saved.wf(),
        !(saved.value is Key),
        fresh.value.kind() == saved.value.kind(),
    ensures
        loaded(fresh, unquoted(value_text(saved))) == (Variable { value: saved.value, ..fresh }),
{
    lemma_value_text_ends(saved);
    match saved.value {
        Value::Key(_) => {},
        Value::Int(n) => {
            lemma_format_parse_int(n);
        },
        Value::IntHex(n) => {
            lemma_format_parse_hex(n);
        },
        Value::Float(t) => {},
        Value::String(t) => {
            let q = seq!['"'] + t + seq!['"'];
            assert(q[0] == '"');
            assert(q.last() == '"');
            assert(q.subrange(1, q.len() - 1) =~= t);
        },
    }
}

/// A scan code that is loaded into a key variable and saved again is written
/// as the same code; only a code that stands for the right shift key is
/// written as 54. Either way the code that is written stands for the key
/// that was loaded.
pub proof fn lemma_key_round_trip(raw: int, fresh: Variable)
    requires
        i32::MIN <= raw <= i32::MAX,
        fresh.value is Key,
    ensures
        loaded(fresh, format_int(raw)).value == Value::Key(scan_to_key(raw)),
        key_code(loaded(fresh, format_int(raw))) == (if scan_to_key(raw) == RSHIFT {
            RSHIFT_SCAN_CODE as int
        } else {
            raw
        }),
        scan_to_key(key_code(loaded(fresh, format_int(raw)))) == scan_to_key(raw),
{
    lemma_format_parse_int(raw);
    let v = loaded(fresh, format_int(raw));
    assert(v.untranslated == raw);
    assert(SCAN_TO_KEY@[54] == RSHIFT);
    if scan_to_key(raw) != RSHIFT && raw == 0 {
        assert(SCAN_TO_KEY@[0] == 0);
        assert(first_scan_code(0, 0));
        let c = choose|c: int| first_scan_code(0, c);
        assert(first_scan_code(0, c));
        assert(c == 0);
    }
}

/// The right shift key is written as the scan code 54, whatever code the
/// variable has kept, and 54 is read as the right shift key.
pub proof fn lemma_right_shift_is_54(v: Variable)
    requires
        v.value == Value::Key(RSHIFT as int),
    ensures
        key_code(v) == 54,
        scan_to_key(54) == RSHIFT,
{
    assert(SCAN_TO_KEY@[54] == RSHIFT);
}

/// The scan code that is written for a key of the table stands for that key.
pub proof fn lemma_key_code_stands_for_key(v: Variable)
    requires
        v.value is Key,
        !no_scan_code(v.value->Key_0),
    ensures
        scan_to_key(key_code(v)) == v.value->Key_0,
{
    let live = v.value->Key_0;
    assert(SCAN_TO_KEY@[54] == RSHIFT);
    let s = choose|s: int| 0 <= s < 128 && SCAN_TO_KEY@[s] == live;
    lemma_first_scan_code_exists(live, s);
    let c = choose|c: int| first_scan_code(live, c);
    assert(first_scan_code(live, c));
}

/// The first variable of a name stands where it stands.
proof fn lemma_index_of_name(vars: Seq<Variable>, name: Seq<char>, from: int, at: int)
    requires
        0 <= from <= at < vars.len(),
        vars[at].name == name,
        forall|j: int| from <= j < at ==> (#[trigger] vars[j]).name != name,
    ensures
        index_of_name(vars, name, from) == at,
    decreases at - from,
{
    if from < at {
        assert(vars[from].name != name);
        lemma_index_of_name(vars, name, from + 1, at);
    }
}

/// Lines that follow do not change what the lines before them did.
proof fn lemma_apply_lines_prefix(vars: Seq<Variable>, lines: Seq<Seq<char>>, more: Seq<char>, n: int)
    requires
        0 <= n <= lines.len(),
    ensures
        apply_lines(vars, lines.push(more), n) == apply_lines(vars, lines, n),
    decreases n,
{
    if n > 0 {
        lemma_apply_lines_prefix(vars, lines, more, n - 1);
        assert(lines.push(more)[n - 1] == lines[n - 1]);
    }
}

/// The line that was saved for a variable gives its text to the first
/// variable of that name, where that one is bound, and to no other.
proof fn lemma_apply_own_line(vars: Seq<Variable>, v: Variable, at: int)
    requires
        0 <= at < vars.len(),
        vars[at].name == v.name,
        vars[at].bound,
        forall|j: int| 0 <= j < at ==> (#[trigger] vars[j]).name != v.name,
        is_word(v.name),
    ensures
        apply_line(vars, line_of(v)) == vars.update(at, reloaded_one(v, vars[at])),
{
    lemma_own_line_names(v);
    lemma_index_of_name(vars, v.name, 0, at);
    if parse_line(line_of(v)) is None {
        assert(vars.update(at, vars[at]) =~= vars);
    }
}

/// Loading the lines that were saved for the first `n` variables gives each
/// bound variable among them the text of its own line.
proof fn lemma_reload(saved: Seq<Variable>, fresh: Seq<Variable>, n: int)
    requires
        same_declarations(saved, fresh),
        distinct_names(saved),
        bound_names_are_words(saved),
        0 <= n <= saved.len(),
    ensures
        apply_lines(fresh, saved_lines(saved, n), saved_lines(saved, n).len() as int) == reloaded(
            saved,
            fresh,
            n,
        ),
    decreases n,
{
    if n == 0 {
        assert(reloaded(saved, fresh, 0) =~= fresh);
    } else {
        lemma_reload(saved, fresh, n - 1);
        let before = saved_lines(saved, n - 1);
        let r = reloaded(saved, fresh, n - 1);
        if saved[n - 1].bound {
            let v = saved[n - 1];
            let line = line_of(v);
            let now = before.push(line);
            assert(is_word(v.name));
            assert(apply_lines(fresh, now, before.len() as int) == r) by {
                lemma_apply_lines_prefix(fresh, before, line, before.len() as int);
            }
            assert(now[before.len() as int] == line);
            assert(apply_lines(fresh, now, now.len() as int) == apply_line(r, line));
            assert(apply_line(r, line) == r.update(n - 1, reloaded_one(v, r[n - 1]))) by {
                assert forall|j: int| 0 <= j < n - 1 implies (#[trigger] r[j]).name != v.name by {
                    assert(fresh[j].name == saved[j].name);
                    if saved[j].bound {
                        assert(is_word(saved[j].name));
                        lemma_reloaded_one_keeps_name(saved[j], fresh[j]);
                    }
                    assert(saved[j].name != saved[n - 1].name);
                }
                assert(fresh[n - 1].name == saved[n - 1].name);
                lemma_apply_own_line(r, v, n - 1);
            }
            assert(r.update(n - 1, reloaded_one(v, r[n - 1])) =~= reloaded(saved, fresh, n));
        } else {
            assert(reloaded(saved, fresh, n) =~= r);
        }
    }
}

/// A variable that takes the text of a line keeps its name.
proof fn lemma_reloaded_one_keeps_name(saved: Variable, fresh: Variable)
    ensures
        reloaded_one(saved, fresh).name == fresh.name,
{
}

/// What a variable takes from the line that was saved for a well-formed
/// variable of its kind, whose name is a word: the value that was saved, for
/// an int, a hex-int, a float and a string. A key takes the scan code that
/// was written and the key that the code stands for, which is the key that
/// was saved where the table has a scan code for it.
pub proof fn lemma_reloaded_variable(saved: Variable, fresh: Variable)
    requires
        can_round_trip(saved),
        fresh.value.kind() == saved.value.kind(),
    ensures
        !(saved.value is Key) ==> reloaded_one(saved, fresh) == (Variable {
            value: saved.value,
            ..fresh
        }),
        saved.value is Key ==> reloaded_one(saved, fresh) == (Variable {
            value: Value::Key(scan_to_key(key_code(saved))),
            untranslated: key_code(saved),
            original_translated: scan_to_key(key_code(saved)),
            ..fresh
        }),
        saved.value is Key && !no_scan_code(saved.value->Key_0) ==> reloaded_one(
            saved,
            fresh,
        ).value == saved.value,
{
    lemma_line_parses(saved);
    if saved.value is Key {
        let code = key_code(saved);
        lemma_key_code_in_range(saved);
        lemma_format_int_ends(code);
        lemma_format_parse_int(code);
        assert(unquoted(format_int(code)) == format_int(code));
        if !no_scan_code(saved.value->Key_0) {
            lemma_key_code_stands_for_key(saved);
        }
    } else {
        lemma_value_round_trip(saved, fresh);
    }
}

/// A key variable that was loaded from a file and not changed since is saved
/// with the scan code of the file: the code that it has kept still stands
/// for its key. Only the right shift key is written as 54 instead.
pub proof fn lemma_kept_key_code(v: Variable)
    requires
        v.value is Key,
        v.value->Key_0 == scan_to_key(v.untranslated),
        v.value->Key_0 != RSHIFT,
    ensures
        key_code(v) == v.untranslated,
{
    if v.untranslated == 0 {
        assert(SCAN_TO_KEY@[0] == 0);
        assert(first_scan_code(0, 0));
        let c = choose|c: int| first_scan_code(0, c);
        assert(first_scan_code(0, c));
        assert(c == 0);
    }
}

/// A key variable that was loaded from a file and not changed since comes
/// back as it was when its saved line is loaded: the same scan code, the key
/// that the code stands for, and that key as its value. The right shift key
/// is left out: it comes back with the code 54.
pub proof fn lemma_kept_key_comes_back(saved: Variable, fresh: Variable)
    requires
        can_round_trip(saved),
        saved.value is Key,
        fresh.value is Key,
        saved.value->Key_0 == scan_to_key(saved.untranslated),
        saved.value->Key_0 != RSHIFT,
    ensures
        reloaded_one(saved, fresh) == (Variable {
            value: saved.value,
            untranslated: saved.untranslated,
            original_translated: saved.value->Key_0,
            ..fresh
        }),
{
    lemma_kept_key_code(saved);
    lemma_reloaded_variable(saved, fresh);
}

/// Saving a collection and loading the lines into a collection that declares
/// the same variables gives every bound variable the value that was saved.
///
/// It holds of a collection whose names are distinct and, where bound, words.
/// Of each bound variable it asks only that this variable is well formed:
/// what the lines of the others hold does not matter. An int, a hex-int, a
/// float and a string come back as they were. A key comes back as the scan
/// code that was written and the key that the code stands for, which is the
/// key that was saved where the table has a scan code for it. A variable
/// that is not bound stays as it is.
pub proof fn lemma_save_load_round_trip(saved: Seq<Variable>, fresh: Seq<Variable>)
    requires
        same_declarations(saved, fresh),
        distinct_names(saved),
        bound_names_are_words(saved),
    ensures
        ({
            let lines = saved_lines(saved, saved.len() as int);
            let after = apply_lines(fresh, lines, lines.len() as int);
            &&& after.len() == saved.len()
            &&& forall|i: int|
                0 <= i < saved.len() && saved[i].bound && saved[i].wf() && !(saved[i].value is Key)
                    ==> #[trigger] after[i] == (Variable { value: saved[i].value, ..fresh[i] })
            &&& forall|i: int|
                0 <= i < saved.len() && saved[i].bound && saved[i].wf() && saved[i].value is Key
                    ==> #[trigger] after[i] == (Variable {
                    value: Value::Key(scan_to_key(key_code(saved[i]))),
                    untranslated: key_code(saved[i]),
                    original_translated: scan_to_key(key_code(saved[i])),
                    ..fresh[i]
                })
            &&& forall|i: int|
                0 <= i < saved.len() && saved[i].bound && saved[i].wf() && saved[i].value is Key
                    && !no_scan_code(saved[i].value->Key_0) ==> (#[trigger] after[i]).value
                    == saved[i].value
            &&& forall|i: int| 0 <= i < saved.len() && !saved[i].bound ==> #[trigger] after[i] == fresh[i]
        }),
{
    let n = saved.len() as int;
    lemma_reload(saved, fresh, n);
    let lines = saved_lines(saved, n);
    let after = apply_lines(fresh, lines, lines.len() as int);
    assert(after == reloaded(saved, fresh, n));
    assert(after.len() == saved.len());
    assert forall|i: int| 0 <= i < saved.len() && saved[i].bound implies #[trigger] after[i]
        == reloaded_one(saved[i], fresh[i]) by {}
    assert forall|i: int| 0 <= i < saved.len() && !saved[i].bound implies #[trigger] after[i]
        == fresh[i] by {}
    assert forall|i: int| 0 <= i < saved.len() && saved[i].bound && saved[i].wf() implies {
        &&& !(saved[i].value is Key) ==> #[trigger] after[i] == (Variable {
            value: saved[i].value,
            ..fresh[i]
        })
        &&& saved[i].value is Key ==> after[i] == (Variable {
            value: Value::Key(scan_to_key(key_code(saved[i]))),
            untranslated: key_code(saved[i]),
            original_translated: scan_to_key(key_code(saved[i])),
            ..fresh[i]
        })
        &&& saved[i].value is Key && !no_scan_code(saved[i].value->Key_0) ==> after[i].value
            == saved[i].value
    } by {
        assert(is_word(saved[i].name));
        assert(fresh[i].value.kind() == saved[i].value.kind());
        lemma_reloaded_variable(saved[i], fresh[i]);
    }
}

/// Whether every variable of `vars` is well formed.
pub open spec fn all_wf(vars: Seq<Variable>) -> bool {
    forall|i: int| 0 <= i < vars.len() ==> (#[trigger] vars[i]).wf()
}

/// A line of the configuration file changes values only: the variables keep
/// their names, their kinds and their binding, and stay well formed.
pub proof fn lemma_apply_line_keeps_declarations(vars: Seq<Variable>, line: Seq<char>)
    ensures
        same_declarations(vars, apply_line(vars, line)),
        all_wf(vars) ==> all_wf(apply_line(vars, line)),
{
    let after = apply_line(vars, line);
    match parse_line(line) {
        Some((name, _)) => {
            lemma_index_of_name_bounds(vars, name, 0);
        },
        None => {},
    }
    assert(after.len() == vars.len());
    assert forall|k: int| 0 <= k < vars.len() implies (#[trigger] after[k]).name == vars[k].name
        && after[k].value.kind() == vars[k].value.kind() && after[k].bound == vars[k].bound && (
    vars[k].wf() ==> after[k].wf()) by {
        match parse_line(line) {
            Some((name, text)) => {
                let i = index_of_name(vars, name, 0);
                if 0 <= i < vars.len() && vars[i].bound && k == i {
                    lemma_float_text_is_literal(text);
                    crate::number::lemma_parse_hex_in_range(text);
                    assert(after[k] == loaded(vars[k], text));
                }
            },
            None => {},
        }
    }
}

/// Loading changes values only: the variables keep their names, their kinds
/// and their binding, and stay well formed.
pub proof fn lemma_apply_lines_keep_declarations(vars: Seq<Variable>, lines: Seq<Seq<char>>, n: int)
    ensures
        same_declarations(vars, apply_lines(vars, lines, n)),
        all_wf(vars) ==> all_wf(apply_lines(vars, lines, n)),
    decreases n,
{
    if n > 0 {
        lemma_apply_lines_keep_declarations(vars, lines, n - 1);
        lemma_apply_line_keeps_declarations(apply_lines(vars, lines, n - 1), lines[n - 1]);
    }
}

} // verus!
