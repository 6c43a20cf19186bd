//! The engine fields that configuration variables are bound to.

use vstd::prelude::*;
use crate::defaults::{
    handle_of, index_of_name, lemma_index_of_name_bounds, DefaultLocation, Kind, Variable,
};
use crate::state::State;
use crate::types::MAX_PLAYERS;

verus! {

pub struct InputOptions {
    pub mouse_acceleration: DefaultLocation,
    pub mouse_threshold: DefaultLocation,
    pub vanilla_keyboard_mapping: DefaultLocation,
    pub novert: DefaultLocation,
}

impl Default for InputOptions {
    /// The input options of a new engine: an acceleration of 2, a threshold
    /// of 10, the old keyboard mapping on, and vertical mouse movement on.
    fn default() -> (r: Self)
        ensures
            r.mouse_acceleration.slot_kind() == Kind::Float,
            r.mouse_threshold.slot_kind() == Kind::Int,
            r.vanilla_keyboard_mapping.slot_kind() == Kind::Int,
            r.novert.slot_kind() == Kind::Int,
    {
        Self {
            mouse_acceleration: DefaultLocation::new_float("2"),
            mouse_threshold: DefaultLocation::new_int(10),
            vanilla_keyboard_mapping: DefaultLocation::new_int(1),
            novert: DefaultLocation::new_int(0),
        }
    }
}

pub struct VideoOptions {
    pub usemouse: DefaultLocation,
    pub fullscreen: DefaultLocation,
    pub video_display: DefaultLocation,
}

impl Default for VideoOptions {
    /// The video options of a new engine: the mouse in use, the full screen,
    /// and the first display.
    fn default() -> (r: Self)
        ensures
            r.usemouse.slot_kind() == Kind::Int,
            r.fullscreen.slot_kind() == Kind::Int,
            r.video_display.slot_kind() == Kind::Int,
    {
        Self {
            usemouse: DefaultLocation::new_int(1),
            fullscreen: DefaultLocation::new_int(1),
            video_display: DefaultLocation::new_int(0),
        }
    }
}

pub struct JoystickOptions {}

impl Default for JoystickOptions {
    fn default() -> (r: Self) {
        Self {  }
    }
}

pub struct SoundOptions {}

impl Default for SoundOptions {
    fn default() -> (r: Self) {
        Self {  }
    }
}

pub struct BaseControls {}

impl Default for BaseControls {
    fn default() -> (r: Self) {
        Self {  }
    }
}

pub struct WeaponControls {}

impl Default for WeaponControls {
    fn default() -> (r: Self) {
        Self {  }
    }
}

pub struct MapControls {}

impl Default for MapControls {
    fn default() -> (r: Self) {
        Self {  }
    }
}

pub struct MenuControls {}

impl Default for MenuControls {
    fn default() -> (r: Self) {
        Self {  }
    }
}

pub struct ChatControls {}

impl Default for ChatControls {
    fn default() -> (r: Self) {
        Self {  }
    }
}

pub struct Controls {
    pub base_controls: BaseControls,
    pub weapon_controls: WeaponControls,
    pub map_controls: MapControls,
    pub menu_controls: MenuControls,
    pub chat_controls: ChatControls,
}

impl Default for Controls {
    fn default() -> (r: Self) {
        Self {
            base_controls: BaseControls::default(),
            weapon_controls: WeaponControls::default(),
            map_controls: MapControls::default(),
            menu_controls: MenuControls::default(),
            chat_controls: ChatControls::default(),
        }
    }
}

/// Why a variable could not be bound: the engine is wired wrongly.
#[derive(Clone, Copy, PartialEq, Eq, Structural, Debug)]
pub enum BindError {
    /// No collection declares a variable of that name.
    UnknownVariable,
}

/// The variables of the main and of the extra collection, and the slot of
/// each.
pub struct Registry {
    pub main: Seq<Variable>,
    pub extra: Seq<Variable>,
    pub main_slots: Seq<DefaultLocation>,
    pub extra_slots: Seq<DefaultLocation>,
}

/// The variables of a state and their slots.
pub open spec fn registry_of(state: State) -> Registry {
    Registry {
        main: state.doom_defaults.variables(),
        extra: state.extra_defaults.variables(),
        main_slots: state.doom_defaults.slots(),
        extra_slots: state.extra_defaults.slots(),
    }
}

/// The variable called `name` in the registry: the first of that name, the
/// main collection searched first.
pub open spec fn variable_named(registry: Registry, name: Seq<char>) -> Option<Variable> {
    match handle_of(registry.main, registry.extra, name) {
        Some(h) => Some(
            if h.extra {
                registry.extra[h.index as int]
            } else {
                registry.main[h.index as int]
            },
        ),
        None => None,
    }
}

/// Whether the variable `name` can be bound to the slot `location` as one of
/// `kind`: the slot is of that kind, and so is the variable, where the
/// registry declares one of that name. To bind anything else is a mistake in
/// the wiring of the engine, and no such call may be made.
pub open spec fn fits(
    registry: Registry,
    name: Seq<char>,
    location: DefaultLocation,
    kind: Kind,
) -> bool {
    &&& location.slot_kind() == kind
    &&& (variable_named(registry, name) matches Some(v) ==> v.value.kind() == kind)
}

/// The variable `v` with an engine field attached.
pub open spec fn bound_to(v: Variable) -> Variable {
    Variable { bound: true, ..v }
}

/// What binding the variable `name` to the slot `location` makes of the
/// registry. The first variable of that name is bound, the main collection
/// searched first: it is marked as bound and shares `location` from then
/// on. Where no variable has the name, that is the error.
pub open spec fn bind_outcome(registry: Registry, name: Seq<char>, location: DefaultLocation) -> Result<
    Registry,
    BindError,
> {
    match handle_of(registry.main, registry.extra, name) {
        None => Err(BindError::UnknownVariable),
        Some(h) => {
            let at = h.index as int;
            if h.extra {
                Ok(
                    Registry {
                        extra: registry.extra.update(at, bound_to(registry.extra[at])),
                        extra_slots: registry.extra_slots.update(at, location),
                        ..registry
                    },
                )
            } else {
                Ok(
                    Registry {
                        main: registry.main.update(at, bound_to(registry.main[at])),
                        main_slots: registry.main_slots.update(at, location),
                        ..registry
                    },
                )
            }
        },
    }
}

/// Whether `after` differs from `before` at most in the variables of its two
/// collections.
pub open spec fn same_but_variables(before: State, after: State) -> bool {
    &&& after.doom_defaults.file_name == before.doom_defaults.file_name
    &&& after.extra_defaults.file_name == before.extra_defaults.file_name
    &&& after == (State {
        doom_defaults: after.doom_defaults,
        extra_defaults: after.extra_defaults,
        ..before
    })
}

/// Whether `r` and the state `after` are what binding `name` to `location`
/// makes of the state `before`: the registry of `bind_outcome` and nothing
/// else changed, or its error and nothing changed at all.
pub open spec fn binds(
    before: State,
    after: State,
    name: Seq<char>,
    location: DefaultLocation,
    r: Result<(), BindError>,
) -> bool {
    &&& same_but_variables(before, after)
    &&& before.wf() ==> after.wf()
    &&& match bind_outcome(registry_of(before), name, location) {
        Ok(registry) => r is Ok && registry_of(after) == registry,
        Err(e) => r == Err::<(), _>(e) && after == before,
    }
}

/// What binding the four input variables to the slots of the input options
/// makes of the registry, and the error that stopped it, if one did. The
/// variables bound before the error stay bound.
pub open spec fn input_bound(
    registry: Registry,
    acceleration: DefaultLocation,
    threshold: DefaultLocation,
    mapping: DefaultLocation,
    novert: DefaultLocation,
) -> (Registry, Option<BindError>) {
    match bind_outcome(registry, "mouse_acceleration"@, acceleration) {
        Err(e) => (registry, Some(e)),
        Ok(first) => match bind_outcome(first, "mouse_threshold"@, threshold) {
            Err(e) => (first, Some(e)),
            Ok(second) => match bind_outcome(second, "vanilla_keyboard_mapping"@, mapping) {
                Err(e) => (second, Some(e)),
                Ok(third) => match bind_outcome(third, "novert"@, novert) {
                    Err(e) => (third, Some(e)),
                    Ok(fourth) => (fourth, None),
                },
            },
        },
    }
}

/// What binding the input variables of `state` to its input options makes
/// of its registry, and the error that stopped it, if one did.
pub open spec fn input_outcome(state: State) -> (Registry, Option<BindError>) {
    input_bound(
        registry_of(state),
        state.input_options.mouse_acceleration,
        state.input_options.mouse_threshold,
        state.input_options.vanilla_keyboard_mapping,
        state.input_options.novert,
    )
}

/// Whether the input variables of `state` can be bound to its input
/// options: the acceleration is a float, the three others are ints, in the
/// options and, where declared, in the registry.
pub open spec fn input_fits(state: State) -> bool {
    let registry = registry_of(state);
    &&& fits(
        registry,
        "mouse_acceleration"@,
        state.input_options.mouse_acceleration,
        Kind::Float,
    )
    &&& fits(registry, "mouse_threshold"@, state.input_options.mouse_threshold, Kind::Int)
    &&& fits(
        registry,
        "vanilla_keyboard_mapping"@,
        state.input_options.vanilla_keyboard_mapping,
        Kind::Int,
    )
    &&& fits(registry, "novert"@, state.input_options.novert, Kind::Int)
}

/// Whether `r` and the state `after` are what binding the input variables
/// makes of the state `before`.
pub open spec fn binds_input(before: State, after: State, r: Result<(), BindError>) -> bool {
    let outcome = input_outcome(before);
    &&& same_but_variables(before, after)
    &&& before.wf() ==> after.wf()
    &&& registry_of(after) == outcome.0
    &&& match r {
        Ok(_) => outcome.1 is None,
        Err(e) => outcome.1 == Some(e),
    }
}

/// Variables of the same names are found at the same places.
proof fn lemma_same_names_same_index(
    a: Seq<Variable>,
    b: Seq<Variable>,
    name: Seq<char>,
    from: int,
)
    requires
        a.len() == b.len(),
        forall|i: int| 0 <= i < a.len() ==> (#[trigger] a[i]).name == b[i].name,
    ensures
        index_of_name(a, name, from) == index_of_name(b, name, from),
    decreases a.len() - from,
{
    if 0 <= from < a.len() {
        assert(a[from].name == b[from].name);
        if a[from].name != name {
            lemma_same_names_same_index(a, b, name, from + 1);
        }
    }
}

/// Binding changes neither a name nor a kind, so what could be bound before
/// can be bound after.
proof fn lemma_bind_keeps_fit(
    registry: Registry,
    name: Seq<char>,
    location: DefaultLocation,
    other: Seq<char>,
    slot: DefaultLocation,
    kind: Kind,
)
    requires
        bind_outcome(registry, name, location) is Ok,
    ensures
        fits(bind_outcome(registry, name, location)->Ok_0, other, slot, kind) == fits(
            registry,
            other,
            slot,
            kind,
        ),
{
    let after = bind_outcome(registry, name, location)->Ok_0;
    lemma_index_of_name_bounds(registry.main, name, 0);
    lemma_index_of_name_bounds(registry.extra, name, 0);
    lemma_index_of_name_bounds(registry.main, other, 0);
    lemma_index_of_name_bounds(registry.extra, other, 0);
    assert(after.main.len() == registry.main.len());
    assert(after.extra.len() == registry.extra.len());
    assert forall|i: int| 0 <= i < registry.main.len() implies (#[trigger] after.main[i]).name
        == registry.main[i].name && after.main[i].value == registry.main[i].value by {}
    assert forall|i: int| 0 <= i < registry.extra.len() implies (#[trigger] after.extra[i]).name
        == registry.extra[i].name && after.extra[i].value == registry.extra[i].value by {}
    lemma_same_names_same_index(after.main, registry.main, other, 0);
    lemma_same_names_same_index(after.extra, registry.extra, other, 0);
}

impl State {
    /// Whether the variable `name` can be bound to `location` as one of
    /// `kind`: what `fits` says. The binding functions ask for it.
    pub fn binding_fits(&self, name: &str, location: &DefaultLocation, kind: Kind) -> (r: bool)
        ensures
            r == fits(registry_of(*self), name@, *location, kind),
    {
        if location.kind() != kind {
            return false;
        }
        match self.get_default_for_name(name) {
            Some(handle) => {
                if handle.extra {
                    self.extra_defaults.defaults[handle.index].value.kind() == kind
                } else {
                    self.doom_defaults.defaults[handle.index].value.kind() == kind
                }
            },
            None => true,
        }
    }

    /// Whether the input variables can be bound to the input options: what
    /// `input_fits` says. `bind_input_variables`, `bind_variables` and
    /// `doom_main` ask for it.
    pub fn input_bindings_fit(&self) -> (r: bool)
        ensures
            r == input_fits(*self),
    {
        self.binding_fits("mouse_acceleration", &self.input_options.mouse_acceleration, Kind::Float)
            && self.binding_fits("mouse_threshold", &self.input_options.mouse_threshold, Kind::Int)
            && self.binding_fits(
            "vanilla_keyboard_mapping",
            &self.input_options.vanilla_keyboard_mapping,
            Kind::Int,
        ) && self.binding_fits("novert", &self.input_options.novert, Kind::Int)
    }

    /// Binds the variable `name`, declared with `kind`, to `location`.
    fn bind_variable(&mut self, name: &str, location: DefaultLocation, kind: Kind) -> (r: Result<
        (),
        BindError,
    >)
        requires
            fits(registry_of(*old(self)), name@, location, kind),
        ensures
            binds(*old(self), *final(self), name@, location, r),
    {
        let handle = match self.get_default_for_name(name) {
            Some(handle) => handle,
            None => {
                return Err(BindError::UnknownVariable);
            },
        };
        let ghost before = registry_of(*self);
        if handle.extra {
            let mut variable = self.extra_defaults.defaults[handle.index].clone();
            variable.location = location;
            variable.bound = true;
            self.extra_defaults.defaults.set(handle.index, variable);
            assert(self.extra_defaults.variables() =~= before.extra.update(
                handle.index as int,
                bound_to(before.extra[handle.index as int]),
            ));
            assert(self.extra_defaults.slots() =~= before.extra_slots.update(
                handle.index as int,
                location,
            ));
            assert(self.doom_defaults.variables() =~= before.main);
            assert(self.doom_defaults.slots() =~= before.main_slots);
        } else {
            let mut variable = self.doom_defaults.defaults[handle.index].clone();
            variable.location = location;
            variable.bound = true;
            self.doom_defaults.defaults.set(handle.index, variable);
            assert(self.doom_defaults.variables() =~= before.main.update(
                handle.index as int,
                bound_to(before.main[handle.index as int]),
            ));
            assert(self.doom_defaults.slots() =~= before.main_slots.update(
                handle.index as int,
                location,
            ));
            assert(self.extra_defaults.variables() =~= before.extra);
            assert(self.extra_defaults.slots() =~= before.extra_slots);
        }
        Ok(())
    }

    /// Binds the float variable `name` to `location`: the variable shares the
    /// slot from now on, and loading and saving take it up. The slot must be
    /// a float slot, and so must the variable: `binding_fits` tells. An error
    /// where no variable has that name.
    pub fn bind_float_variable(&mut self, name: &str, location: DefaultLocation) -> (r: Result<
        (),
        BindError,
    >)
        requires
            fits(registry_of(*old(self)), name@, location, Kind::Float),
        ensures
            binds(*old(self), *final(self), name@, location, r),
    {
        self.bind_variable(name, location, Kind::Float)
    }

    /// Binds the int variable `name` to `location`: the variable shares the
    /// slot from now on, and loading and saving take it up. The slot must be
    /// an int slot, and so must the variable: `binding_fits` tells. An error
    /// where no variable has that name.
    pub fn bind_int_variable(&mut self, name: &str, location: DefaultLocation) -> (r: Result<
        (),
        BindError,
    >)
        requires
            fits(registry_of(*old(self)), name@, location, Kind::Int),
        ensures
            binds(*old(self), *final(self), name@, location, r),
    {
        self.bind_variable(name, location, Kind::Int)
    }

    /// Binds the variables of the mouse and the keyboard to the input
    /// options, in the order `mouse_acceleration`, `mouse_threshold`,
    /// `vanilla_keyboard_mapping`, `novert`. The options and the variables
    /// must be of their kinds: `input_bindings_fit` tells. The first variable
    /// that no collection declares stops it.
    pub fn bind_input_variables(&mut self) -> (r: Result<(), BindError>)
        requires
            input_fits(*old(self)),
        ensures
            binds_input(*old(self), *final(self), r),
    {
        let ghost r0 = registry_of(*self);
        let acceleration = self.input_options.mouse_acceleration.clone();
        let threshold = self.input_options.mouse_threshold.clone();
        let mapping = self.input_options.vanilla_keyboard_mapping.clone();
        let novert = self.input_options.novert.clone();
        match self.bind_float_variable("mouse_acceleration", acceleration) {
            Err(e) => {
                return Err(e);
            },
            Ok(_) => {},
        }
        proof {
            lemma_bind_keeps_fit(
                r0,
                "mouse_acceleration"@,
                acceleration,
                "mouse_threshold"@,
                threshold,
                Kind::Int,
            );
            lemma_bind_keeps_fit(
                r0,
                "mouse_acceleration"@,
                acceleration,
                "vanilla_keyboard_mapping"@,
                mapping,
                Kind::Int,
            );
            lemma_bind_keeps_fit(r0, "mouse_acceleration"@, acceleration, "novert"@, novert, Kind::Int);
        }
        let ghost r1 = registry_of(*self);
        match self.bind_int_variable("mouse_threshold", threshold) {
            Err(e) => {
                return Err(e);
            },
            Ok(_) => {},
        }
        proof {
            lemma_bind_keeps_fit(
                r1,
                "mouse_threshold"@,
                threshold,
                "vanilla_keyboard_mapping"@,
                mapping,
                Kind::Int,
            );
            lemma_bind_keeps_fit(r1, "mouse_threshold"@, threshold, "novert"@, novert, Kind::Int);
        }
        let ghost r2 = registry_of(*self);
        match self.bind_int_variable("vanilla_keyboard_mapping", mapping) {
            Err(e) => {
                return Err(e);
            },
            Ok(_) => {},
        }
        proof {
            lemma_bind_keeps_fit(r2, "vanilla_keyboard_mapping"@, mapping, "novert"@, novert, Kind::Int);
        }
        self.bind_int_variable("novert", novert)
    }

    /// Binds the variables of the display: the engine has no field for any.
    pub fn bind_video_variables(&mut self)
        ensures
            *final(self) == *old(self),
    {
    }

    /// Binds the variables of the joystick: the engine has no field for any.
    pub fn bind_joystick_variables(&mut self)
        ensures
            *final(self) == *old(self),
    {
    }

    /// Binds the variables of the sound: the engine has no field for any.
    pub fn bind_sound_variables(&mut self)
        ensures
            *final(self) == *old(self),
    {
    }

    /// Binds the keys that move the player: the engine has no field for any.
    pub fn bind_base_controls(&mut self)
        ensures
            *final(self) == *old(self),
    {
    }

    /// Binds the keys that pick a weapon: the engine has no field for any.
    pub fn bind_weapon_controls(&mut self)
        ensures
            *final(self) == *old(self),
    {
    }

    /// Binds the keys of the map: the engine has no field for any.
    pub fn bind_map_controls(&mut self)
        ensures
            *final(self) == *old(self),
    {
    }

    /// Binds the keys of the menu: the engine has no field for any.
    pub fn bind_menu_controls(&mut self)
        ensures
            *final(self) == *old(self),
    {
    }

    /// Binds the keys of the chat among `max_players` players: the engine has
    /// no field for any.
    pub fn bind_chat_controls(&mut self, max_players: usize)
        ensures
            *final(self) == *old(self),
    {
    }

    /// Binds every variable that the engine has a field for. The options and
    /// the variables must be of their kinds: `input_bindings_fit` tells. The
    /// first variable that no collection declares stops it.
    pub fn bind_variables(&mut self) -> (r: Result<(), BindError>)
        requires
            input_fits(*old(self)),
        ensures
            binds_input(*old(self), *final(self), r),
    {
        match self.bind_input_variables() {
            Err(e) => {
                return Err(e);
            },
            Ok(_) => {},
        }
        self.bind_video_variables();
        self.bind_joystick_variables();
        self.bind_sound_variables();
        self.bind_base_controls();
        self.bind_weapon_controls();
        self.bind_map_controls();
        self.bind_menu_controls();
        self.bind_chat_controls(MAX_PLAYERS);
        Ok(())
    }
}

} // verus!
