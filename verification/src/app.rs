//! The application: its entity store, its two scheduled steps — spawn the
//! player at startup, move it while the middle pointer button is held — and
//! the accessors that count the players and read the player's position.

use vstd::prelude::*;

use crate::entity::{
    count_movable, count_players, has_player, is_movable_player, lemma_count_push,
    lemma_count_congruent, lemma_count_take_step, lemma_one_movable_unique,
    lemma_one_player_unique, lemma_unique_indices_agree, movable_index, player_index, Entity,
    Player, Sprite, Transform, Vec3,
};
use crate::input::{ButtonInput, MouseButton};

verus! {

/// How far the player moves right in each tick the middle button is held.
pub const PLAYER_STEP: i64 = 16;

/// The fixed non-uniform scale the player is spawned with.
pub const PLAYER_SCALE_X: i64 = 64;

pub const PLAYER_SCALE_Y: i64 = 32;

pub const PLAYER_SCALE_Z: i64 = 1;

/// The application: an entity store, the two registered steps, and the
/// optional button-input resource. The startup schedule runs once, on the
/// first tick; the update schedule runs every tick after it.
pub struct App {
    /// All entities, in spawn order.
    pub entities: Vec<Entity>,
    /// The startup schedule holds the player-spawn step.
    pub spawn_registered: bool,
    /// The update schedule holds the input-response step.
    pub respond_registered: bool,
    /// Whether the startup schedule has already run.
    pub startup_done: bool,
    /// The button-input resource; present only when the input plugin was
    /// added at build time.
    pub input: Option<ButtonInput>,
}

/// The entity the startup step spawns: a default visual marker, a transform
/// with the fixed non-uniform scale and zero translation, and the player tag.
pub open spec fn spawned_player() -> Entity {
    Entity {
        sprite: Some(Sprite),
        transform: Some(
            Transform {
                translation: Vec3 { x: 0, y: 0, z: 0 },
                scale: Vec3 { x: PLAYER_SCALE_X, y: PLAYER_SCALE_Y, z: PLAYER_SCALE_Z },
            },
        ),
        player: Some(Player),
    }
}

/// The state `create_app` hands back, before any tick has run.
pub open spec fn is_setup(app: App, add_input_plugin: bool) -> bool {
    &&& app.entities@.len() == 0
    &&& app.spawn_registered
    &&& app.respond_registered
    &&& !app.startup_done
    &&& app.input == (if add_input_plugin {
        Some(ButtonInput::released())
    } else {
        Option::<ButtonInput>::None
    })
}

/// The entity store once this tick's startup schedule has run: on the first
/// tick the spawn step appends the player; afterwards it adds nothing.
pub open spec fn startup_entities(app: App) -> Seq<Entity> {
    if !app.startup_done && app.spawn_registered {
        app.entities@.push(spawned_player())
    } else {
        app.entities@
    }
}

/// The input resource exists and reports the middle button held.
pub open spec fn middle_held(app: App) -> bool {
    app.input is Some && app.input->Some_0.spec_pressed(MouseButton::Middle)
}

/// `e` moved right by one step.
pub open spec fn stepped(e: Entity) -> Entity {
    let t = e.transform->Some_0;
    Entity {
        sprite: e.sprite,
        transform: Some(
            Transform {
                translation: Vec3 {
                    x: (t.translation.x + PLAYER_STEP) as i64,
                    y: t.translation.y,
                    z: t.translation.z,
                },
                scale: t.scale,
            },
        ),
        player: e.player,
    }
}

/// What the input-response step does to the entity store: while the middle
/// button is held, the one entity the movement query matches moves right by
/// one step; otherwise nothing changes.
pub open spec fn respond_step(s: Seq<Entity>, input: ButtonInput) -> Seq<Entity> {
    if input.spec_pressed(MouseButton::Middle) {
        s.update(movable_index(s), stepped(s[movable_index(s)]))
    } else {
        s
    }
}

/// Horizontal position of the movement query's unique match.
pub open spec fn movable_x(s: Seq<Entity>) -> int {
    s[movable_index(s)].transform->Some_0.translation.x as int
}

/// What a tick demands of the application before it may run. The update
/// schedule's input-response step reads the button-input resource and takes
/// the single entity its query matches, so when that step is registered the
/// resource must exist, the query must match exactly one entity once the
/// startup schedule has run, and a step right must stay in range.
pub open spec fn tick_ready(app: App) -> bool {
    app.respond_registered ==> {
        &&& app.input is Some
        &&& count_movable(startup_entities(app)) == 1
        &&& (middle_held(app) ==> movable_x(startup_entities(app)) + PLAYER_STEP <= i64::MAX)
    }
}

/// The entity store after one tick: the startup schedule runs first (once
/// per application), then the input-response step if it is registered.
pub open spec fn tick_entities(app: App) -> Seq<Entity> {
    let s = startup_entities(app);
    if app.respond_registered && middle_held(app) {
        respond_step(s, app.input->Some_0)
    } else {
        s
    }
}

/// Position of the unique player entity in the store.
pub open spec fn player_position(s: Seq<Entity>) -> (i64, i64) {
    let t = s[player_index(s)].transform->Some_0;
    (t.translation.x, t.translation.y)
}

/// Build the application: an empty entity store with the player-spawn step
/// registered at startup and the input-response step registered for every
/// update tick. The button-input resource is added only when the caller
/// asks for it; a test harness does, a host that supplies its own input
/// stack does not.
pub fn create_app(add_input_plugin: bool) -> (app: App)
    ensures
        is_setup(app, add_input_plugin),
        count_players(app.entities@) == 0,
{
    let input: Option<ButtonInput> = if add_input_plugin {
        Some(ButtonInput::new())
    } else {
        None
    };
    App {
        entities: Vec::new(),
        spawn_registered: true,
        respond_registered: true,
        startup_done: false,
        input,
    }
}

/// Startup step: spawn the one player entity into the store.
pub fn add_player(entities: &mut Vec<Entity>)
    ensures
        final(entities)@ == old(entities)@.push(spawned_player()),
        count_players(final(entities)@) == count_players(old(entities)@) + 1,
        count_movable(final(entities)@) == count_movable(old(entities)@) + 1,
{
    let scale = Vec3::new(PLAYER_SCALE_X, PLAYER_SCALE_Y, PLAYER_SCALE_Z);
    let translation = Vec3::new(0, 0, 0);
    entities.push(
        Entity {
            sprite: Some(Sprite),
            transform: Some(Transform { translation, scale }),
            player: Some(Player),
        },
    );
    proof {
        lemma_count_push(old(entities)@, spawned_player());
    }
}

/// Locate the single entity the movement query matches.
fn find_movable_index(entities: &Vec<Entity>) -> (idx: usize)
    requires
        count_movable(entities@) == 1,
    ensures
        idx == movable_index(entities@),
        idx < entities@.len(),
        is_movable_player(entities@[idx as int]),
{
    proof {
        lemma_one_movable_unique(entities@);
    }
    let n = entities.len();
    let mut i: usize = 0;
    while i < n
        invariant
            i <= n,
            n == entities@.len(),
            count_movable(entities@) == 1,
            movable_index(entities@) >= i,
            0 <= movable_index(entities@) < entities@.len(),
            is_movable_player(entities@[movable_index(entities@)]),
            forall|j: int| 0 <= j < entities@.len() && is_movable_player(entities@[j])
                ==> j == movable_index(entities@),
        decreases n - i,
    {
        if entities[i].player.is_some() && entities[i].transform.is_some() {
            proof {
                assert(is_movable_player(entities@[i as int]));
            }
            return i;
        }
        proof {
            assert(!is_movable_player(entities@[i as int]));
        }
        i += 1;
    }
    proof {
        assert(false);
    }
    0
}

/// Update step: while the middle button is held, move the player right by
/// one step. The movement is continuous while held, not edge-triggered: the
/// position advances once per tick for as long as the button stays down.
pub fn respond_to_mouse_wheel_press(entities: &mut Vec<Entity>, input: &ButtonInput)
    requires
        count_movable(old(entities)@) == 1,
        input.spec_pressed(MouseButton::Middle) ==> movable_x(old(entities)@) + PLAYER_STEP
            <= i64::MAX,
    ensures
        final(entities)@ == respond_step(old(entities)@, *input),
        count_players(final(entities)@) == count_players(old(entities)@),
        count_movable(final(entities)@) == count_movable(old(entities)@),
{
    let idx = find_movable_index(entities);
    if input.pressed(MouseButton::Middle) {
        let e = entities[idx];
        let t = e.transform.unwrap();
        let moved = Transform {
            translation: Vec3::new(t.translation.x + PLAYER_STEP, t.translation.y, t.translation.z),
            scale: t.scale,
        };
        entities[idx] = Entity { sprite: e.sprite, transform: Some(moved), player: e.player };
        proof {
            assert(final(entities)@ =~= old(entities)@.update(idx as int, stepped(old(entities)@[idx as int])));
            lemma_count_congruent(final(entities)@, old(entities)@);
        }
    }
}

impl App {
    /// An application with nothing registered: no entities, no scheduled
    /// steps, no input resource.
    pub fn new() -> (app: App)
        ensures
            app.entities@.len() == 0,
            count_players(app.entities@) == 0,
            !app.spawn_registered,
            !app.respond_registered,
            !app.startup_done,
            app.input is None,
    {
        App {
            entities: Vec::new(),
            spawn_registered: false,
            respond_registered: false,
            startup_done: false,
            input: None,
        }
    }

    /// Run one tick: the startup schedule once per application lifetime,
    /// then the update schedule.
    pub fn update(&mut self)
        requires
            tick_ready(*old(self)),
        ensures
            final(self).entities@ == tick_entities(*old(self)),
            final(self).startup_done,
            final(self).spawn_registered == old(self).spawn_registered,
            final(self).respond_registered == old(self).respond_registered,
            final(self).input == old(self).input,
    {
        if !self.startup_done && self.spawn_registered {
            add_player(&mut self.entities);
        }
        self.startup_done = true;
        proof {
            assert(self.entities@ == startup_entities(*old(self)));
        }
        if self.respond_registered {
            let input = self.input.unwrap();
            respond_to_mouse_wheel_press(&mut self.entities, &input);
        }
    }

    /// Press a pointer button on the application's input resource. The
    /// input plugin must have been added when the application was built.
    pub fn press(&mut self, button: MouseButton)
        requires
            old(self).input is Some,
        ensures
            final(self).input == Some(old(self).input->Some_0.spec_set(button, true)),
            final(self).entities@ == old(self).entities@,
            final(self).spawn_registered == old(self).spawn_registered,
            final(self).respond_registered == old(self).respond_registered,
            final(self).startup_done == old(self).startup_done,
    {
        match &mut self.input {
            Some(input) => input.press(button),
            None => {},
        }
    }

    /// Release a pointer button on the application's input resource. The
    /// input plugin must have been added when the application was built.
    pub fn release(&mut self, button: MouseButton)
        requires
            old(self).input is Some,
        ensures
            final(self).input == Some(old(self).input->Some_0.spec_set(button, false)),
            final(self).entities@ == old(self).entities@,
            final(self).spawn_registered == old(self).spawn_registered,
            final(self).respond_registered == old(self).respond_registered,
            final(self).startup_done == old(self).startup_done,
    {
        match &mut self.input {
            Some(input) => input.release(button),
            None => {},
        }
    }
}

/// How many entities carry the player tag.
pub fn count_n_players(app: &App) -> (n: usize)
    ensures
        n == count_players(app.entities@),
{
    let total = app.entities.len();
    let mut n: usize = 0;
    let mut i: usize = 0;
    while i < total
        invariant
            i <= total,
            total == app.entities@.len(),
            n <= i,
            n == count_players(app.entities@.take(i as int)),
        decreases total - i,
    {
        proof {
            lemma_count_take_step(app.entities@, i as int);
        }
        if app.entities[i].player.is_some() {
            n += 1;
        }
        i += 1;
    }
    proof {
        assert(app.entities@.take(total as int) =~= app.entities@);
    }
    n
}

/// Position of the unique player entity. Run a tick that spawns the player
/// first: exactly one entity may carry the player tag — with fewer or more
/// the query has no single answer and the call is refused — and that entity
/// must carry a transform, since the position query matches both components.
pub fn get_player_position(app: &App) -> (pos: (i64, i64))
    requires
        count_players(app.entities@) == 1,
        count_movable(app.entities@) == 1,
    ensures
        pos == player_position(app.entities@),
{
    let idx = find_movable_index(&app.entities);
    proof {
        lemma_one_player_unique(app.entities@);
        assert(has_player(app.entities@[idx as int]));
        assert(player_index(app.entities@) == idx as int);
    }
    let e = app.entities[idx];
    let t = e.transform.unwrap();
    (t.translation.x, t.translation.y)
}

/// Law: a freshly built application is ready for its first tick when the
/// input plugin was added: the input resource exists, and once the startup
/// schedule has spawned the player the movement query matches exactly one
/// entity, sitting far from the end of the range.
pub proof fn lemma_setup_tick_ready(app: App)
    requires
        is_setup(app, true),
    ensures
        tick_ready(app),
{
    lemma_count_push(app.entities@, spawned_player());
}

/// Law: on the first tick of a freshly built application the startup step
/// spawns the player, so exactly one player entity exists afterwards — and
/// the movement query matches exactly that one entity.
pub proof fn lemma_first_tick_spawns_one_player(app: App, add_input_plugin: bool)
    requires
        is_setup(app, add_input_plugin),
    ensures
        count_players(tick_entities(app)) == 1,
        count_movable(tick_entities(app)) == 1,
{
    lemma_count_push(app.entities@, spawned_player());
    assert(!middle_held(app));
}

/// Law: after the first tick the player sits at the origin, whatever the
/// input plugin choice was: no button is held yet, so the spawn position is
/// untouched.
pub proof fn lemma_first_tick_player_at_origin(app: App, add_input_plugin: bool)
    requires
        is_setup(app, add_input_plugin),
    ensures
        player_position(tick_entities(app)) == (0i64, 0i64),
{
    lemma_count_push(app.entities@, spawned_player());
    assert(!middle_held(app));
    let s = tick_entities(app);
    assert(s == app.entities@.push(spawned_player()));
    assert(s.len() == 1);
    assert(s[0] == spawned_player());
    lemma_one_player_unique(s);
    assert(player_index(s) == 0);
}

/// Law: a tick run while the middle button is held moves the unique player
/// right by exactly one step, so its horizontal position strictly increases;
/// its vertical position and the player count do not change.
pub proof fn lemma_held_tick_steps_player_right(app: App)
    requires
        app.startup_done,
        app.respond_registered,
        middle_held(app),
        count_players(app.entities@) == 1,
        count_movable(app.entities@) == 1,
        player_position(app.entities@).0 + PLAYER_STEP <= i64::MAX,
    ensures
        count_players(tick_entities(app)) == 1,
        count_movable(tick_entities(app)) == 1,
        player_position(tick_entities(app)).0 == player_position(app.entities@).0 + PLAYER_STEP,
        player_position(tick_entities(app)).0 > player_position(app.entities@).0,
        player_position(tick_entities(app)).1 == player_position(app.entities@).1,
{
    let s = app.entities@;
    let m = movable_index(s);
    lemma_one_movable_unique(s);
    lemma_one_player_unique(s);
    lemma_unique_indices_agree(s);
    let t = tick_entities(app);
    assert(t == s.update(m, stepped(s[m])));
    assert(t.len() == s.len());
    assert(t[m] == stepped(s[m]));
    assert(forall|i: int| 0 <= i < s.len() && i != m ==> t[i] == s[i]);
    assert(has_player(t[m]) == has_player(s[m]));
    assert(is_movable_player(t[m]) == is_movable_player(s[m]));
    lemma_count_congruent(t, s);
    lemma_one_player_unique(t);
    assert(player_index(t) == m);
    assert(movable_x(s) == player_position(s).0 as int);
}

/// Law: while no button is held, a tick leaves the entity store — and with
/// it the player's position — unchanged; ticks may repeat indefinitely
/// without moving the player.
pub proof fn lemma_unheld_tick_keeps_store(app: App)
    requires
        app.startup_done,
        !middle_held(app),
    ensures
        tick_entities(app) == app.entities@,
        player_position(tick_entities(app)) == player_position(app.entities@),
{
}

} // verus!
