//! Configuration variables: typed values, the slots in which the engine
//! shares them, the named variables, and the two collections that the engine
//! declares at start-up.

use vstd::prelude::*;
use std::sync::Arc;
use crate::number::{digit_run, float_literal, is_float_literal, is_unsigned_number};
use crate::state::State;
use crate::text::{chars_eq, is_space, is_whitespace, to_chars};

verus! {

/// The type of a configuration value. A slot keeps the kind it was made with.
#[derive(Clone, Copy, PartialEq, Eq, Structural, Debug)]
pub enum Kind {
    Key,
    Int,
    IntHex,
    Float,
    String,
}

/// The mathematical value of a slot. A float is held as its decimal literal:
/// the library stores and writes the literal and never computes with it.
pub enum Value {
    Key(int),
    Int(int),
    IntHex(int),
    Float(Seq<char>),
    String(Seq<char>),
}

impl Value {
    pub open spec fn kind(self) -> Kind {
        match self {
            Value::Key(_) => Kind::Key,
            Value::Int(_) => Kind::Int,
            Value::IntHex(_) => Kind::IntHex,
            Value::Float(_) => Kind::Float,
            Value::String(_) => Kind::String,
        }
    }

    /// A float slot holds a literal of the float grammar; the integer slots
    /// hold 32-bit values.
    pub open spec fn wf(self) -> bool {
        match self {
            Value::Key(v) => i32::MIN <= v <= i32::MAX,
            Value::Int(v) => i32::MIN <= v <= i32::MAX,
            Value::IntHex(v) => i32::MIN <= v <= i32::MAX,
            Value::Float(t) => is_float_literal(t),
            Value::String(_) => true,
        }
    }

    /// The value as a slot keeps it: a float that is no float literal gives
    /// way to `0`, and every other value is kept as it is.
    pub open spec fn normal(self) -> Value {
        match self {
            Value::Float(t) => Value::Float(float_text(t)),
            other => other,
        }
    }

    /// The value a declared variable starts with.
    pub open spec fn zero(kind: Kind) -> Value {
        match kind {
            Kind::Key => Value::Key(0),
            Kind::Int => Value::Int(0),
            Kind::IntHex => Value::IntHex(0),
            Kind::Float => Value::Float(seq!['0']),
            Kind::String => Value::String(Seq::empty()),
        }
    }
}

/// The literal a float slot falls back to when it is handed text that is no
/// float literal: `text` itself where it is one, `0` otherwise.
pub open spec fn float_text(text: Seq<char>) -> Seq<char> {
    if is_float_literal(text) {
        text
    } else {
        seq!['0']
    }
}

/// A tagged configuration value.
#[derive(Debug, PartialEq, Eq)]
pub enum DefaultLocationEnum {
    Key(i32),
    Int(i32),
    IntHex(i32),
    /// The decimal literal of a floating-point number.
    Float(String),
    String(String),
}

impl View for DefaultLocationEnum {
    type V = Value;

    open spec fn view(&self) -> Value {
        match self {
            DefaultLocationEnum::Key(v) => Value::Key(*v as int),
            DefaultLocationEnum::Int(v) => Value::Int(*v as int),
            DefaultLocationEnum::IntHex(v) => Value::IntHex(*v as int),
            DefaultLocationEnum::Float(t) => Value::Float(t@),
            DefaultLocationEnum::String(t) => Value::String(t@),
        }
    }
}

impl Clone for DefaultLocationEnum {
    fn clone(&self) -> (r: Self)
        ensures
            r == *self,
    {
        match self {
            DefaultLocationEnum::Key(v) => DefaultLocationEnum::Key(*v),
            DefaultLocationEnum::Int(v) => DefaultLocationEnum::Int(*v),
            DefaultLocationEnum::IntHex(v) => DefaultLocationEnum::IntHex(*v),
            DefaultLocationEnum::Float(t) => DefaultLocationEnum::Float(t.clone()),
            DefaultLocationEnum::String(t) => DefaultLocationEnum::String(t.clone()),
        }
    }
}

/// The literal that a float slot keeps of `text`.
fn float_or_zero(text: String) -> (r: String)
    ensures
        r@ == float_text(text@),
{
    let chars = to_chars(text.as_str());
    if float_literal(&chars) {
        text
    } else {
        let zero = "0".to_owned();
        proof {
            reveal_strlit("0");
            assert(zero@ =~= seq!['0']);
        }
        zero
    }
}

impl DefaultLocationEnum {
    pub fn is_key(&self) -> (r: bool)
        ensures
            r == (self@ is Key),
    {
        match self {
            Self::Key(_) => true,
            _ => false,
        }
    }

    pub fn is_int(&self) -> (r: bool)
        ensures
            r == (self@ is Int),
    {
        match self {
            Self::Int(_) => true,
            _ => false,
        }
    }

    pub fn is_int_hex(&self) -> (r: bool)
        ensures
            r == (self@ is IntHex),
    {
        match self {
            Self::IntHex(_) => true,
            _ => false,
        }
    }

    pub fn is_float(&self) -> (r: bool)
        ensures
            r == (self@ is Float),
    {
        match self {
            Self::Float(_) => true,
            _ => false,
        }
    }

    pub fn is_string(&self) -> (r: bool)
        ensures
            r == (self@ is String),
    {
        match self {
            Self::String(_) => true,
            _ => false,
        }
    }

    /// The kind of the value.
    pub fn kind(&self) -> (k: Kind)
        ensures
            k == self@.kind(),
    {
        match self {
            Self::Key(_) => Kind::Key,
            Self::Int(_) => Kind::Int,
            Self::IntHex(_) => Kind::IntHex,
            Self::Float(_) => Kind::Float,
            Self::String(_) => Kind::String,
        }
    }

    /// Stores `key` in a key slot; any other slot is left as it is.
    pub(crate) fn set_key(&mut self, key: i32)
        ensures
            final(self)@ == (if old(self)@ is Key {
                Value::Key(key as int)
            } else {
                old(self)@
            }),
    {
        match self {
            Self::Key(k) => *k = key,
            _ => {},
        }
    }

    /// Stores `value` in an int slot; any other slot is left as it is.
    pub(crate) fn set_int(&mut self, value: i32)
        ensures
            final(self)@ == (if old(self)@ is Int {
                Value::Int(value as int)
            } else {
                old(self)@
            }),
    {
        match self {
            Self::Int(i) => *i = value,
            _ => {},
        }
    }

    /// Stores `int_hex` in a hex-int slot; any other slot is left as it is.
    pub(crate) fn set_int_hex(&mut self, int_hex: i32)
        ensures
            final(self)@ == (if old(self)@ is IntHex {
                Value::IntHex(int_hex as int)
            } else {
                old(self)@
            }),
    {
        match self {
            Self::IntHex(i) => *i = int_hex,
            _ => {},
        }
    }

    /// Stores the literal `float` in a float slot, or `0` where `float` is no
    /// float literal; any other slot is left as it is.
    pub(crate) fn set_float(&mut self, float: String)
        ensures
            final(self)@ == (if old(self)@ is Float {
                Value::Float(float_text(float@))
            } else {
                old(self)@
            }),
    {
        match self {
            Self::Float(f) => *f = float_or_zero(float),
            _ => {},
        }
    }

    /// Stores `string` in a string slot; any other slot is left as it is.
    pub(crate) fn set_string(&mut self, string: String)
        ensures
            final(self)@ == (if old(self)@ is String {
                Value::String(string@)
            } else {
                old(self)@
            }),
    {
        match self {
            Self::String(s) => *s = string,
            _ => {},
        }
    }

    /// The key code of a key slot.
    pub(crate) fn as_key(&self) -> (r: Result<i32, DefaultLocationEnumVariantError>)
        ensures
            match r {
                Ok(v) => self@ == Value::Key(v as int),
                Err(e) => !(self@ is Key) && e.why() == "not a key"@,
            },
    {
        match self {
            Self::Key(k) => Ok(*k),
            _ => Err(DefaultLocationEnumVariantError::from("not a key")),
        }
    }

    /// The number of an int slot.
    pub(crate) fn as_int(&self) -> (r: Result<i32, DefaultLocationEnumVariantError>)
        ensures
            match r {
                Ok(v) => self@ == Value::Int(v as int),
                Err(e) => !(self@ is Int) && e.why() == "not an int"@,
            },
    {
        match self {
            Self::Int(i) => Ok(*i),
            _ => Err(DefaultLocationEnumVariantError::from("not an int")),
        }
    }

    /// The number of a hex-int slot.
    pub(crate) fn as_int_hex(&self) -> (r: Result<i32, DefaultLocationEnumVariantError>)
        ensures
            match r {
                Ok(v) => self@ == Value::IntHex(v as int),
                Err(e) => !(self@ is IntHex) && e.why() == "not a hexadecimal int"@,
            },
    {
        match self {
            Self::IntHex(i) => Ok(*i),
            _ => Err(DefaultLocationEnumVariantError::from("not a hexadecimal int")),
        }
    }

    /// The literal of a float slot.
    pub(crate) fn as_float(&self) -> (r: Result<String, DefaultLocationEnumVariantError>)
        ensures
            match r {
                Ok(t) => self@ == Value::Float(t@),
                Err(e) => !(self@ is Float) && e.why() == "not a float"@,
            },
    {
        match self {
            Self::Float(f) => Ok(f.clone()),
            _ => Err(DefaultLocationEnumVariantError::from("not a float")),
        }
    }

    /// The text of a string slot.
    pub(crate) fn as_string(&self) -> (r: Result<String, DefaultLocationEnumVariantError>)
        ensures
            match r {
                Ok(t) => self@ == Value::String(t@),
                Err(e) => !(self@ is String) && e.why() == "not a string"@,
            },
    {
        match self {
            Self::String(s) => Ok(s.clone()),
            _ => Err(DefaultLocationEnumVariantError::from("not a string")),
        }
    }
}

/// A slot was asked for a value of a kind it does not hold.
#[derive(Debug, PartialEq, Eq)]
pub struct DefaultLocationEnumVariantError {
    why: String,
}

impl DefaultLocationEnumVariantError {
    /// The reason, as text.
    pub closed spec fn why(&self) -> Seq<char> {
        self.why@
    }

    /// An error with the reason `s`.
    pub fn from(s: &str) -> (e: Self)
        ensures
            e.why() == s@,
    {
        Self { why: s.to_owned() }
    }

    /// The reason, as text.
    pub fn message(&self) -> (s: String)
        ensures
            s@ == self.why(),
    {
        self.why.clone()
    }
}

/// Declares the lock type of `parking_lot`, a lock of `lock_api` over the
/// raw lock below. Nothing is known of what is inside.
#[verifier::external_type_specification]
#[verifier::external_body]
#[verifier::reject_recursive_types(R)]
#[verifier::reject_recursive_types(T)]
pub struct ExRwLock<R, T: ?Sized>(parking_lot::lock_api::RwLock<R, T>);

/// Declares the raw lock of `parking_lot`. Nothing is known of what is
/// inside.
#[verifier::external_type_specification]
#[verifier::external_body]
pub struct ExRawRwLock(parking_lot::RawRwLock);

/// Calls `parking_lot::RwLock::new`. Trusted, and nothing is claimed: a lock
/// comes back. The library hands it well-formed values only.
#[verifier::external_body]
fn lock_new(value: DefaultLocationEnum) -> (lock: parking_lot::RwLock<DefaultLocationEnum>)
    requires
        value@.wf(),
{
    parking_lot::RwLock::new(value)
}

/// Calls `parking_lot::RwLock::read`, copies what the lock guards, and lets
/// go of the lock. Trusted, and nothing is claimed of the value: any holder
/// of the lock may have written it in the meantime.
#[verifier::external_body]
fn lock_read(lock: &parking_lot::RwLock<DefaultLocationEnum>) -> (value: DefaultLocationEnum) {
    lock.read().clone()
}

/// Calls `parking_lot::RwLock::write`, puts `value` under the lock, and lets
/// go of the lock. Trusted, and nothing is claimed. The library hands it
/// well-formed values only.
#[verifier::external_body]
fn lock_write(lock: &parking_lot::RwLock<DefaultLocationEnum>, value: DefaultLocationEnum)
    requires
        value@.wf(),
{
    *lock.write() = value;
}

/// What a slot of `kind` stores when it is given `value`: the value as a
/// slot keeps it, where it is of the kind of the slot, and nothing otherwise.
pub open spec fn stored(kind: Kind, value: Value) -> Option<Value> {
    if value.kind() == kind {
        Some(value.normal())
    } else {
        None
    }
}

/// What a slot of `kind` is taken to hold when its lock gives `raw`: `raw`
/// as a slot keeps it, where it is of the kind of the slot, and the zero of
/// the kind otherwise.
pub open spec fn held(kind: Kind, raw: Value) -> Value {
    if raw.kind() == kind {
        raw.normal()
    } else {
        Value::zero(kind)
    }
}

/// `value` as a slot keeps it.
fn well_formed(value: DefaultLocationEnum) -> (r: DefaultLocationEnum)
    ensures
        r@ == value@.normal(),
        r@.kind() == value@.kind(),
        r@.wf(),
        value@.wf() ==> r@ == value@,
{
    match value {
        DefaultLocationEnum::Float(text) => {
            proof {
                lemma_float_text_is_literal(text@);
            }
            DefaultLocationEnum::Float(float_or_zero(text))
        },
        other => other,
    }
}

/// The zero of a kind.
fn zero_of(kind: Kind) -> (r: DefaultLocationEnum)
    ensures
        r@ == Value::zero(kind),
        r@.wf(),
{
    match kind {
        Kind::Key => DefaultLocationEnum::Key(0),
        Kind::Int => DefaultLocationEnum::Int(0),
        Kind::IntHex => DefaultLocationEnum::IntHex(0),
        Kind::Float => {
            let zero = "0".to_owned();
            proof {
                reveal_strlit("0");
                assert(zero@ =~= seq!['0']);
                lemma_float_text_is_literal(Seq::empty());
            }
            DefaultLocationEnum::Float(zero)
        },
        Kind::String => {
            let empty = String::new();
            DefaultLocationEnum::String(empty)
        },
    }
}

/// A typed value slot: a cell behind a lock, shared by everyone who holds a
/// copy of the handle. The engine reads and writes its copy while the game
/// runs; the configuration writes what it loads and reads what it saves.
///
/// The kind of the slot is fixed when it is made. Of the value nothing can
/// be said between two looks at it: whoever shares the cell may have
/// written it.
#[derive(Debug)]
pub struct DefaultLocation {
    kind: Kind,
    cell: Arc<parking_lot::RwLock<DefaultLocationEnum>>,
}

impl Clone for DefaultLocation {
    /// Another handle to the same cell.
    fn clone(&self) -> (r: Self)
        ensures
            r == *self,
    {
        DefaultLocation { kind: self.kind, cell: self.cell.clone() }
    }
}

impl DefaultLocation {
    /// The kind of the slot.
    pub closed spec fn slot_kind(&self) -> Kind {
        self.kind
    }

    /// A new slot of the kind of `value`. Its cell is made with `value` as a
    /// slot keeps it.
    pub fn of(value: DefaultLocationEnum) -> (r: Self)
        ensures
            r.slot_kind() == value@.kind(),
    {
        let kind = value.kind();
        DefaultLocation { kind, cell: Arc::new(lock_new(well_formed(value))) }
    }

    /// A new key slot, made with the key code `key`.
    pub fn new_key(key: i32) -> (r: Self)
        ensures
            r.slot_kind() == Kind::Key,
    {
        Self::of(DefaultLocationEnum::Key(key))
    }

    pub fn new_int(value: i32) -> (r: Self)
        ensures
            r.slot_kind() == Kind::Int,
    {
        Self::of(DefaultLocationEnum::Int(value))
    }

    pub fn new_int_hex(int_hex: i32) -> (r: Self)
        ensures
            r.slot_kind() == Kind::IntHex,
    {
        Self::of(DefaultLocationEnum::IntHex(int_hex))
    }

    /// A float slot that holds the literal `float`, or `0` where `float` is
    /// no float literal.
    pub fn new_float(float: &str) -> (r: Self)
        ensures
            r.slot_kind() == Kind::Float,
    {
        Self::of(DefaultLocationEnum::Float(float.to_owned()))
    }

    pub fn new_string(string: &str) -> (r: Self)
        ensures
            r.slot_kind() == Kind::String,
    {
        Self::of(DefaultLocationEnum::String(string.to_owned()))
    }

    /// The kind of the slot.
    pub fn kind(&self) -> (k: Kind)
        ensures
            k == self.slot_kind(),
    {
        self.kind
    }

    /// What the slot is taken to hold when its lock gives `raw`.
    pub fn holds(&self, raw: DefaultLocationEnum) -> (value: DefaultLocationEnum)
        ensures
            value@ == held(self.slot_kind(), raw@),
            value@.kind() == self.slot_kind(),
            value@.wf(),
    {
        if raw.kind() == self.kind {
            well_formed(raw)
        } else {
            zero_of(self.kind)
        }
    }

    /// What the slot hands to its lock when it is given `value`; nothing
    /// where `value` is of another kind than the slot.
    pub fn stores(&self, value: DefaultLocationEnum) -> (r: Option<DefaultLocationEnum>)
        ensures
            match r {
                Some(v) => stored(self.slot_kind(), value@) == Some(v@) && v@.wf(),
                None => stored(self.slot_kind(), value@) is None,
            },
    {
        if value.kind() == self.kind {
            Some(well_formed(value))
        } else {
            None
        }
    }

    /// What the cell holds at this moment: a well-formed value of the kind of
    /// the slot, made by `holds` of what the lock gave.
    pub fn get(&self) -> (value: DefaultLocationEnum)
        ensures
            value@.kind() == self.slot_kind(),
            value@.wf(),
    {
        self.holds(lock_read(&self.cell))
    }

    /// Puts `value` in the cell where it is of the kind of the slot, and says
    /// whether it is. What goes under the lock is what `stores` gives.
    pub fn set(&self, value: DefaultLocationEnum) -> (taken: bool)
        ensures
            taken == (value@.kind() == self.slot_kind()),
    {
        match self.stores(value) {
            Some(v) => {
                lock_write(&self.cell, v);
                true
            },
            None => false,
        }
    }

    /// Stores `key` in a key slot, by `set`; any other slot is left as it is.
    /// The handle is the same afterwards.
    pub fn set_key(&mut self, key: i32)
        ensures
            *final(self) == *old(self),
    {
        self.set(DefaultLocationEnum::Key(key));
    }

    /// Stores `value` in an int slot, by `set`; any other slot is left as it
    /// is. The handle is the same afterwards.
    pub fn set_int(&mut self, value: i32)
        ensures
            *final(self) == *old(self),
    {
        self.set(DefaultLocationEnum::Int(value));
    }

    /// Stores `int_hex` in a hex-int slot, by `set`; any other slot is left as
    /// it is. The handle is the same afterwards.
    pub fn set_int_hex(&mut self, int_hex: i32)
        ensures
            *final(self) == *old(self),
    {
        self.set(DefaultLocationEnum::IntHex(int_hex));
    }

    /// Stores the literal `float` in a float slot, or `0` where `float` is no
    /// float literal, by `set`; any other slot is left as it is. The handle
    /// is the same afterwards.
    pub fn set_float(&mut self, float: String)
        ensures
            *final(self) == *old(self),
    {
        self.set(DefaultLocationEnum::Float(float));
    }

    /// Stores `string` in a string slot, by `set`; any other slot is left as
    /// it is. The handle is the same afterwards.
    pub fn set_string(&mut self, string: String)
        ensures
            *final(self) == *old(self),
    {
        self.set(DefaultLocationEnum::String(string));
    }

    /// The key code that a key slot holds at this moment; an error for any
    /// other slot.
    pub fn as_key(&self) -> (r: Result<i32, DefaultLocationEnumVariantError>)
        ensures
            r is Ok <==> self.slot_kind() == Kind::Key,
            r matches Err(e) ==> e.why() == "not a key"@,
    {
        self.get().as_key()
    }

    /// The number that an int slot holds at this moment; an error for any
    /// other slot.
    pub fn as_int(&self) -> (r: Result<i32, DefaultLocationEnumVariantError>)
        ensures
            r is Ok <==> self.slot_kind() == Kind::Int,
            r matches Err(e) ==> e.why() == "not an int"@,
    {
        self.get().as_int()
    }

    /// The number that a hex-int slot holds at this moment; an error for any
    /// other slot.
    pub fn as_int_hex(&self) -> (r: Result<i32, DefaultLocationEnumVariantError>)
        ensures
            r is Ok <==> self.slot_kind() == Kind::IntHex,
            r matches Err(e) ==> e.why() == "not a hexadecimal int"@,
    {
        self.get().as_int_hex()
    }

    /// The literal that a float slot holds at this moment; an error for any
    /// other slot.
    pub fn as_float(&self) -> (r: Result<String, DefaultLocationEnumVariantError>)
        ensures
            r is Ok <==> self.slot_kind() == Kind::Float,
            r matches Ok(t) ==> is_float_literal(t@),
            r matches Err(e) ==> e.why() == "not a float"@,
    {
        self.get().as_float()
    }

    /// The text that a string slot holds at this moment; an error for any
    /// other slot.
    pub fn as_string(&self) -> (r: Result<String, DefaultLocationEnumVariantError>)
        ensures
            r is Ok <==> self.slot_kind() == Kind::String,
            r matches Err(e) ==> e.why() == "not a string"@,
    {
        self.get().as_string()
    }
}

/// The mathematical content of a named variable.
pub struct Variable {
    pub name: Seq<char>,
    pub value: Value,
    pub untranslated: int,
    pub original_translated: int,
    pub bound: bool,
}

impl Variable {
    /// The value is well formed, and the scan codes of a key are 32-bit
    /// values. Every variable of a collection that was made and changed
    /// through the functions of this crate is so.
    pub open spec fn wf(self) -> bool {
        &&& self.value.wf()
        &&& i32::MIN <= self.untranslated <= i32::MAX
        &&& i32::MIN <= self.original_translated <= i32::MAX
    }
}

/// What a float slot keeps of any text is a float literal.
pub proof fn lemma_float_text_is_literal(text: Seq<char>)
    ensures
        is_float_literal(float_text(text)),
{
    if !is_float_literal(text) {
        let zero = seq!['0'];
        assert(digit_run(zero, 1) == 0);
        assert(digit_run(zero, 0) == 1);
        assert(is_unsigned_number(zero, 0));
    }
}

/// The variable `v` after its slot gave the value `now`: a bound variable of
/// the kind of `now` holds `now`, and any other variable is as it was.
pub open spec fn taken(v: Variable, now: Value) -> Variable {
    if v.bound && now.kind() == v.value.kind() {
        Variable { value: now, ..v }
    } else {
        v
    }
}

/// Whether `after` is what the variable `before` is after it took the value
/// that its slot, one of the kind `slot`, held. A bound variable of the kind
/// of its slot differs from `before` in its value at most, and the value is
/// a well-formed one of that kind: which one, the slot decides. Any other
/// variable is as it was.
pub open spec fn took_its_slot(before: Variable, after: Variable, slot: Kind) -> bool {
    if before.bound && slot == before.value.kind() {
        &&& after == (Variable { value: after.value, ..before })
        &&& after.value.kind() == slot
        &&& after.value.wf()
    } else {
        after == before
    }
}

/// Whether `name` is a word: not empty, and without white space.
pub open spec fn is_word(name: Seq<char>) -> bool {
    name.len() > 0 && forall|i: int| 0 <= i < name.len() ==> !is_space(#[trigger] name[i])
}

/// Whether no two of `vars` have the same name.
pub open spec fn distinct_names(vars: Seq<Variable>) -> bool {
    forall|i: int, j: int|
        0 <= i < j < vars.len() ==> (#[trigger] vars[i]).name != (#[trigger] vars[j]).name
}

/// Whether the variables `vars` are named as a collection names them: each
/// name is a word, and no two variables have the same name.
pub open spec fn well_named(vars: Seq<Variable>) -> bool {
    &&& distinct_names(vars)
    &&& forall|i: int| 0 <= i < vars.len() ==> is_word((#[trigger] vars[i]).name)
}

/// Variables that have the names of well-named variables, place for place,
/// are well named.
pub proof fn lemma_names_kept(before: Seq<Variable>, after: Seq<Variable>)
    requires
        well_named(before),
        after.len() == before.len(),
        forall|i: int| 0 <= i < before.len() ==> (#[trigger] after[i]).name == before[i].name,
    ensures
        well_named(after),
{
    assert forall|i: int, j: int| 0 <= i < j < after.len() implies (#[trigger] after[i]).name != (
    #[trigger] after[j]).name by {
        assert(before[i].name != before[j].name);
    }
    assert forall|i: int| 0 <= i < after.len() implies is_word((#[trigger] after[i]).name) by {
        assert(is_word(before[i].name));
    }
}

/// Whether the characters `name` are a word.
pub fn word(name: &Vec<char>) -> (r: bool)
    ensures
        r == is_word(name@),
{
    if name.len() == 0 {
        return false;
    }
    let mut i: usize = 0;
    while i < name.len()
        invariant
            i <= name@.len(),
            forall|j: int| 0 <= j < i ==> !is_space(#[trigger] name@[j]),
        decreases name@.len() - i,
    {
        if is_whitespace(name[i]) {
            return false;
        }
        i += 1;
    }
    true
}

/// A named configuration variable.
#[derive(Debug)]
pub struct Default {
    pub name: String,
    /// The slot that the variable shares with the engine once it is bound.
    pub location: DefaultLocation,
    /// The value as the configuration knows it: what was declared, loaded
    /// last, or found in the slot when the variable was last saved.
    pub value: DefaultLocationEnum,
    /// For a key: the scan code as the configuration file gave it.
    pub untranslated: i32,
    /// For a key: the key code that `untranslated` stood for when it was read.
    pub original_translated: i32,
    /// Whether an engine field is attached. Loading and saving pass over a
    /// variable that is not bound.
    pub bound: bool,
}

impl View for Default {
    type V = Variable;

    open spec fn view(&self) -> Variable {
        Variable {
            name: self.name@,
            value: self.value@,
            untranslated: self.untranslated as int,
            original_translated: self.original_translated as int,
            bound: self.bound,
        }
    }
}

impl Clone for Default {
    /// A copy of the variable that shares its slot.
    fn clone(&self) -> (r: Self)
        ensures
            r == *self,
    {
        Self {
            name: self.name.clone(),
            location: self.location.clone(),
            value: self.value.clone(),
            untranslated: self.untranslated,
            original_translated: self.original_translated,
            bound: self.bound,
        }
    }
}

impl Default {
    /// The variable is well formed, and its slot is of its kind.
    pub open spec fn wf(&self) -> bool {
        self@.wf() && self.location.slot_kind() == self@.value.kind()
    }

    pub fn is_key(&self) -> (r: bool)
        ensures
            r == (self@.value is Key),
    {
        self.value.is_key()
    }

    pub fn is_int(&self) -> (r: bool)
        ensures
            r == (self@.value is Int),
    {
        self.value.is_int()
    }

    pub fn is_int_hex(&self) -> (r: bool)
        ensures
            r == (self@.value is IntHex),
    {
        self.value.is_int_hex()
    }

    pub fn is_float(&self) -> (r: bool)
        ensures
            r == (self@.value is Float),
    {
        self.value.is_float()
    }

    pub fn is_string(&self) -> (r: bool)
        ensures
            r == (self@.value is String),
    {
        self.value.is_string()
    }

    /// Puts the value of the variable into its slot, for the engine to find.
    /// The variable itself stays as it is.
    pub fn publish(&self) -> (taken: bool)
        ensures
            taken == (self@.value.kind() == self.location.slot_kind()),
    {
        self.location.set(self.value.clone())
    }

    /// Gives a bound variable the value `now` that its slot gave: the
    /// variable becomes `taken`. A variable that is not bound stays as it
    /// is, and so does one of another kind than `now`.
    pub fn take(&mut self, now: DefaultLocationEnum)
        ensures
            final(self)@ == taken(old(self)@, now@),
            final(self).location == old(self).location,
    {
        if self.bound && now.kind() == self.value.kind() {
            self.value = now;
        }
    }

    /// Takes the value that the slot of a bound variable holds at this
    /// moment, by `take`: the variable is as `took_its_slot` says. Name,
    /// kind, binding and scan codes stay, the new value is a well-formed one
    /// of the kind, and a variable that is not bound, or whose slot is of
    /// another kind, stays as it is. Which value the slot gave is not for
    /// this contract to say: whoever shares the slot may have written it.
    pub fn refresh(&mut self)
        ensures
            took_its_slot(old(self)@, final(self)@, old(self).location.slot_kind()),
            final(self).location == old(self).location,
            old(self).wf() ==> final(self).wf(),
    {
        if self.bound {
            let now = self.location.get();
            self.take(now);
        }
    }
}

/// The variables of one configuration file, in the order in which they are
/// declared, and the path of the file.
pub struct DefaultCollection {
    pub defaults: Vec<Default>,
    pub file_name: String,
}

impl DefaultCollection {
    /// The variables of the collection, in order.
    pub open spec fn variables(&self) -> Seq<Variable> {
        Seq::new(self.defaults@.len(), |i: int| self.defaults@[i]@)
    }

    /// The slots of the variables of the collection, in order.
    pub open spec fn slots(&self) -> Seq<DefaultLocation> {
        Seq::new(self.defaults@.len(), |i: int| self.defaults@[i].location)
    }

    /// Every variable of the collection is well formed, its slot is of its
    /// kind, and the names are words, no two of them the same.
    pub open spec fn wf(&self) -> bool {
        &&& forall|i: int| 0 <= i < self.defaults@.len() ==> (#[trigger] self.defaults@[i]).wf()
        &&& well_named(self.variables())
    }
}

/// The variable that a declaration of `name` with `kind` makes: zero or
/// empty, and not bound.
pub open spec fn declared(name: Seq<char>, kind: Kind) -> Variable {
    Variable {
        name,
        value: Value::zero(kind),
        untranslated: 0,
        original_translated: 0,
        bound: false,
    }
}

/// The variables that a table of declarations makes.
pub open spec fn declared_all(table: Seq<(&'static str, Kind)>) -> Seq<Variable> {
    Seq::new(table.len(), |i: int| declared(table[i].0@, table[i].1))
}

/// A variable `name` with the slot `value`, not bound. It holds what the
/// slot holds at this moment.
pub fn config_variable(name: &str, value: DefaultLocation) -> (d: Default)
    ensures
        d@.name == name@,
        d@.value.kind() == value.slot_kind(),
        d@.value.wf(),
        d@.untranslated == 0,
        d@.original_translated == 0,
        !d@.bound,
        d.location == value,
        d.wf(),
{
    let held = value.get();
    Default {
        name: name.to_owned(),
        location: value,
        value: held,
        untranslated: 0,
        original_translated: 0,
        bound: false,
    }
}

/// The variable that a declaration of `name` with `kind` makes, with a slot
/// of its own.
pub fn declare(name: &str, kind: Kind) -> (d: Default)
    ensures
        d@ == declared(name@, kind),
        d.location.slot_kind() == kind,
        d.wf(),
{
    Default {
        name: name.to_owned(),
        location: DefaultLocation::of(zero_of(kind)),
        value: zero_of(kind),
        untranslated: 0,
        original_translated: 0,
        bound: false,
    }
}

pub fn config_variable_key(name: &str) -> (d: Default)
    ensures
        d@ == declared(name@, Kind::Key),
        d.location.slot_kind() == Kind::Key,
        d.wf(),
{
    declare(name, Kind::Key)
}

pub fn config_variable_int(name: &str) -> (d: Default)
    ensures
        d@ == declared(name@, Kind::Int),
        d.location.slot_kind() == Kind::Int,
        d.wf(),
{
    declare(name, Kind::Int)
}

pub fn config_variable_int_hex(name: &str) -> (d: Default)
    ensures
        d@ == declared(name@, Kind::IntHex),
        d.location.slot_kind() == Kind::IntHex,
        d.wf(),
{
    declare(name, Kind::IntHex)
}

pub fn config_variable_float(name: &str) -> (d: Default)
    ensures
        d@ == declared(name@, Kind::Float),
        d.location.slot_kind() == Kind::Float,
        d.wf(),
{
    declare(name, Kind::Float)
}

pub fn config_variable_string(name: &str) -> (d: Default)
    ensures
        d@ == declared(name@, Kind::String),
        d.location.slot_kind() == Kind::String,
        d.wf(),
{
    declare(name, Kind::String)
}

/// The collection that a table of declarations makes, with no file yet.
fn collection_of(table: &[(&'static str, Kind)]) -> (c: DefaultCollection)
    requires
        well_named(declared_all(table@)),
    ensures
        c.variables() == declared_all(table@),
        c.file_name@ == Seq::<char>::empty(),
        c.wf(),
{
    let mut defaults: Vec<Default> = Vec::new();
    let mut i: usize = 0;
    while i < table.len()
        invariant
            i <= table.len(),
            defaults@.len() == i,
            forall|j: int| 0 <= j < i ==> (#[trigger] defaults@[j])@ == declared(table@[j].0@, table@[j].1),
            forall|j: int| 0 <= j < i ==> (#[trigger] defaults@[j]).wf(),
        decreases table.len() - i,
    {
        defaults.push(declare(table[i].0, table[i].1));
        i += 1;
    }
    let c = DefaultCollection { defaults, file_name: String::new() };
    assert(c.variables() =~= declared_all(table@));
    c
}

/// The variables of the main configuration file, in the order in which they
/// are declared and saved.
pub const DOOM_DEFAULTS: [(&'static str, Kind); 41] = [
    ("mouse_sensitivity", Kind::Int),
    ("sfx_volume", Kind::Int),
    ("music_volume", Kind::Int),
    ("show_messages", Kind::Int),
    ("key_right", Kind::Key),
    ("key_left", Kind::Key),
    ("key_up", Kind::Key),
    ("key_down", Kind::Key),
    ("key_strafeleft", Kind::Key),
    ("key_straferight", Kind::Key),
    ("key_fire", Kind::Key),
    ("key_use", Kind::Key),
    ("key_strafe", Kind::Key),
    ("key_speed", Kind::Key),
    ("use_mouse", Kind::Int),
    ("mouseb_fire", Kind::Int),
    ("mouseb_strafe", Kind::Int),
    ("mouseb_forward", Kind::Int),
    ("mouseb_jump", Kind::Int),
    ("use_joystick", Kind::Int),
    ("joyb_fire", Kind::Int),
    ("joyb_strafe", Kind::Int),
    ("joyb_use", Kind::Int),
    ("joyb_speed", Kind::Int),
    ("joyb_jump", Kind::Int),
    ("screenblocks", Kind::Int),
    ("detaillevel", Kind::Int),
    ("snd_channels", Kind::Int),
    ("snd_musicdevice", Kind::Int),
    ("snd_sfxdevice", Kind::Int),
    ("usegamma", Kind::Int),
    ("chatmacro0", Kind::String),
    ("chatmacro1", Kind::String),
    ("chatmacro2", Kind::String),
    ("chatmacro3", Kind::String),
    ("chatmacro4", Kind::String),
    ("chatmacro5", Kind::String),
    ("chatmacro6", Kind::String),
    ("chatmacro7", Kind::String),
    ("chatmacro8", Kind::String),
    ("chatmacro9", Kind::String),
];

/// The variables of the extra configuration file, in the order in which they
/// are declared and saved.
pub const EXTRA_DEFAULTS: [(&'static str, Kind); 127] = [
    ("video_driver", Kind::String),
    ("window_position", Kind::String),
    ("fullscreen", Kind::Int),
    ("video_display", Kind::Int),
    ("aspect_ratio_correct", Kind::Int),
    ("integer_scaling", Kind::Int),
    ("vga_porch_flash", Kind::Int),
    ("window_width", Kind::Int),
    ("window_height", Kind::Int),
    ("fullscreen_width", Kind::Int),
    ("fullscreen_height", Kind::Int),
    ("force_software_renderer", Kind::Int),
    ("max_scaling_buffer_pixels", Kind::Int),
    ("startup_delay", Kind::Int),
    ("show_endoom", Kind::Int),
    ("show_diskicon", Kind::Int),
    ("png_screenshots", Kind::Int),
    ("snd_samplerate", Kind::Int),
    ("snd_cachesize", Kind::Int),
    ("snd_maxslicetime_ms", Kind::Int),
    ("snd_pitchshift", Kind::Int),
    ("snd_musiccmd", Kind::String),
    ("snd_dmxoption", Kind::String),
    ("opl_io_port", Kind::IntHex),
    ("use_libsamplerate", Kind::Int),
    ("libsamplerate_scale", Kind::Float),
    ("autoload_path", Kind::String),
    ("music_pack_path", Kind::String),
    ("timidity_cfg_path", Kind::String),
    ("gus_patch_path", Kind::String),
    ("gus_ram_kb", Kind::Int),
    ("vanilla_savegame_limit", Kind::Int),
    ("vanilla_demo_limit", Kind::Int),
    ("vanilla_keyboard_mapping", Kind::Int),
    ("player_name", Kind::String),
    ("grabmouse", Kind::Int),
    ("novert", Kind::Int),
    ("mouse_acceleration", Kind::Float),
    ("mouse_threshold", Kind::Int),
    ("mouseb_strafeleft", Kind::Int),
    ("mouseb_straferight", Kind::Int),
    ("mouseb_use", Kind::Int),
    ("mouseb_backward", Kind::Int),
    ("mouseb_prevweapon", Kind::Int),
    ("mouseb_nextweapon", Kind::Int),
    ("dclick_use", Kind::Int),
    ("joystick_guid", Kind::String),
    ("joystick_index", Kind::Int),
    ("joystick_x_axis", Kind::Int),
    ("joystick_x_invert", Kind::Int),
    ("joystick_y_axis", Kind::Int),
    ("joystick_y_invert", Kind::Int),
    ("joystick_strafe_axis", Kind::Int),
    ("joystick_strafe_invert", Kind::Int),
    ("joystick_look_axis", Kind::Int),
    ("joystick_look_invert", Kind::Int),
    ("joystick_physical_button0", Kind::Int),
    ("joystick_physical_button1", Kind::Int),
    ("joystick_physical_button2", Kind::Int),
    ("joystick_physical_button3", Kind::Int),
    ("joystick_physical_button4", Kind::Int),
    ("joystick_physical_button5", Kind::Int),
    ("joystick_physical_button6", Kind::Int),
    ("joystick_physical_button7", Kind::Int),
    ("joystick_physical_button8", Kind::Int),
    ("joystick_physical_button9", Kind::Int),
    ("joystick_physical_button10", Kind::Int),
    ("joyb_strafeleft", Kind::Int),
    ("joyb_straferight", Kind::Int),
    ("joyb_menu_activate", Kind::Int),
    ("joyb_toggle_automap", Kind::Int),
    ("joyb_prevweapon", Kind::Int),
    ("joyb_nextweapon", Kind::Int),
    ("key_pause", Kind::Key),
    ("key_menu_activate", Kind::Key),
    ("key_menu_up", Kind::Key),
    ("key_menu_down", Kind::Key),
    ("key_menu_left", Kind::Key),
    ("key_menu_right", Kind::Key),
    ("key_menu_back", Kind::Key),
    ("key_menu_forward", Kind::Key),
    ("key_menu_confirm", Kind::Key),
    ("key_menu_abort", Kind::Key),
    ("key_menu_help", Kind::Key),
    ("key_menu_save", Kind::Key),
    ("key_menu_load", Kind::Key),
    ("key_menu_volume", Kind::Key),
    ("key_menu_detail", Kind::Key),
    ("key_menu_qsave", Kind::Key),
    ("key_menu_endgame", Kind::Key),
    ("key_menu_messages", Kind::Key),
    ("key_menu_qload", Kind::Key),
    ("key_menu_quit", Kind::Key),
    ("key_menu_gamma", Kind::Key),
    ("key_spy", Kind::Key),
    ("key_menu_incscreen", Kind::Key),
    ("key_menu_decscreen", Kind::Key),
    ("key_menu_screenshot", Kind::Key),
    ("key_map_toggle", Kind::Key),
    ("key_map_north", Kind::Key),
    ("key_map_south", Kind::Key),
    ("key_map_east", Kind::Key),
    ("key_map_west", Kind::Key),
    ("key_map_zoomin", Kind::Key),
    ("key_map_zoomout", Kind::Key),
    ("key_map_maxzoom", Kind::Key),
    ("key_map_follow", Kind::Key),
    ("key_map_grid", Kind::Key),
    ("key_map_mark", Kind::Key),
    ("key_map_clearmark", Kind::Key),
    ("key_weapon1", Kind::Key),
    ("key_weapon2", Kind::Key),
    ("key_weapon3", Kind::Key),
    ("key_weapon4", Kind::Key),
    ("key_weapon5", Kind::Key),
    ("key_weapon6", Kind::Key),
    ("key_weapon7", Kind::Key),
    ("key_weapon8", Kind::Key),
    ("key_prevweapon", Kind::Key),
    ("key_nextweapon", Kind::Key),
    ("key_message_refresh", Kind::Key),
    ("key_demo_quit", Kind::Key),
    ("key_multi_msg", Kind::Key),
    ("key_multi_msgplayer1", Kind::Key),
    ("key_multi_msgplayer2", Kind::Key),
    ("key_multi_msgplayer3", Kind::Key),
    ("key_multi_msgplayer4", Kind::Key),
];

/// The main collection as the engine declares it at start-up: every variable
/// of `DOOM_DEFAULTS`, zero or empty and not bound, and no file yet.
pub fn doom_defaults_init() -> (c: DefaultCollection)
    ensures
        c.variables() == declared_all(DOOM_DEFAULTS@),
        c.file_name@ == Seq::<char>::empty(),
        c.wf(),
{
    proof {
        crate::names::lemma_doom_names();
    }
    collection_of(&DOOM_DEFAULTS)
}

/// The extra collection as the engine declares it at start-up: every variable
/// of `EXTRA_DEFAULTS`, zero or empty and not bound, and no file yet.
pub fn extra_defaults_init() -> (c: DefaultCollection)
    ensures
        c.variables() == declared_all(EXTRA_DEFAULTS@),
        c.file_name@ == Seq::<char>::empty(),
        c.wf(),
{
    proof {
        crate::names::lemma_extra_names();
    }
    collection_of(&EXTRA_DEFAULTS)
}

/// The place of the first variable from `from` on that is called `name`; the
/// length of `vars` where there is none.
pub open spec fn index_of_name(vars: Seq<Variable>, name: Seq<char>, from: int) -> int
    decreases vars.len() - from,
{
    if from < 0 || from >= vars.len() {
        vars.len() as int
    } else if vars[from].name == name {
        from
    } else {
        index_of_name(vars, name, from + 1)
    }
}

/// A search from `from` on ends at or behind `from`, within the variables
/// or just behind them, and what it finds has the name.
pub proof fn lemma_index_of_name_bounds(vars: Seq<Variable>, name: Seq<char>, from: int)
    requires
        0 <= from,
    ensures
        from <= index_of_name(vars, name, from) || index_of_name(vars, name, from) == vars.len(),
        0 <= index_of_name(vars, name, from) <= vars.len(),
        index_of_name(vars, name, from) < vars.len() ==> vars[index_of_name(
            vars,
            name,
            from,
        )].name == name,
    decreases vars.len() - from,
{
    if from < vars.len() && vars[from].name != name {
        lemma_index_of_name_bounds(vars, name, from + 1);
    }
}

/// The place of the first variable of `collection` that is called `name`.
pub fn search(collection: &DefaultCollection, name: &str) -> (r: Option<usize>)
    ensures
        match r {
            Some(i) => i < collection.defaults@.len() && i == index_of_name(
                collection.variables(),
                name@,
                0,
            ),
            None => index_of_name(collection.variables(), name@, 0)
                == collection.defaults@.len(),
        },
{
    let wanted = to_chars(name);
    let ghost vars = collection.variables();
    let mut i: usize = 0;
    while i < collection.defaults.len()
        invariant
            i <= collection.defaults@.len(),
            wanted@ == name@,
            vars == collection.variables(),
            index_of_name(vars, name@, 0) == index_of_name(vars, name@, i as int),
        decreases collection.defaults@.len() - i,
    {
        let have = to_chars(collection.defaults[i].name.as_str());
        assert(vars[i as int].name == have@);
        if crate::text::chars_eq(&have, &wanted) {
            return Some(i);
        }
        i += 1;
    }
    None
}

/// Where a variable stands: in which collection, and at which place.
#[derive(Clone, Copy, PartialEq, Eq, Structural, Debug)]
pub struct DefaultHandle {
    /// Whether the variable is one of the extra collection.
    pub extra: bool,
    pub index: usize,
}

impl State {
    /// The place of the first variable of `collection` that is called
    /// `name`.
    pub fn search_collection(&self, collection: &DefaultCollection, name: &str) -> (r: Option<
        usize,
    >)
        ensures
            match r {
                Some(i) => i < collection.defaults@.len() && i == index_of_name(
                    collection.variables(),
                    name@,
                    0,
                ),
                None => index_of_name(collection.variables(), name@, 0)
                    == collection.defaults@.len(),
            },
    {
        search(collection, name)
    }

    /// The variable called `name`: the first of that name in the main
    /// collection, else the first in the extra one. Nothing where neither
    /// has one.
    pub fn get_default_for_name(&self, name: &str) -> (r: Option<DefaultHandle>)
        ensures
            r == handle_of(self.doom_defaults.variables(), self.extra_defaults.variables(), name@),
            r matches Some(h) ==> h.index < (if h.extra {
                self.extra_defaults.defaults@.len()
            } else {
                self.doom_defaults.defaults@.len()
            }),
    {
        match self.search_collection(&self.doom_defaults, name) {
            Some(index) => Some(DefaultHandle { extra: false, index }),
            None => match self.search_collection(&self.extra_defaults, name) {
                Some(index) => Some(DefaultHandle { extra: true, index }),
                None => None,
            },
        }
    }
}

/// The variable called `name` among those of the main and the extra
/// collection, the main collection first.
pub open spec fn handle_of(main: Seq<Variable>, extra: Seq<Variable>, name: Seq<char>) -> Option<
    DefaultHandle,
> {
    let i = index_of_name(main, name, 0);
    let j = index_of_name(extra, name, 0);
    if i < main.len() {
        Some(DefaultHandle { extra: false, index: i as usize })
    } else if j < extra.len() {
        Some(DefaultHandle { extra: true, index: j as usize })
    } else {
        None
    }
}

} // verus!
