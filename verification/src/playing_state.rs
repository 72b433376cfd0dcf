//! The land under the actors: a grid of tiles, each alive or destroyed until a
//! countdown restores it, and the pair of animations that shows the change.

use crate::common::animation::Animation;
use crate::timer::advance;
use crate::timer::nanos;
use crate::timer::timer_model;
use crate::timer::total;
use crate::timer::MAX_DURATION_NANOS;
use crate::timer::TimerModel;
use crate::timer::NANOS_PER_MILLI;
use bevy::time::Timer;
use bevy::time::TimerMode;
use std::time::Duration;
use vstd::prelude::*;

verus! {

/// Tile size in pixels.
pub const TILE_SIZE: i32 = 40;

pub const TILES_WIDTH: usize = 4;

pub const TILES_HEIGHT: usize = 4;

/// How long a tile takes to fade once it is destroyed, in milliseconds.
pub const FALL_ANIMATION_MILLIS: u64 = 300;

/// How long a tile takes to show up once it is restored, in milliseconds.
pub const RESTORE_ANIMATION_MILLIS: u64 = 150;

pub enum LandTile {
    Alive,
    Destroyed { until_alive: Timer },
}

/// A tile as contracts see it.
pub enum TileModel {
    Alive,
    Destroyed { until_alive: TimerModel },
}

impl View for LandTile {
    type V = TileModel;

    open spec fn view(&self) -> TileModel {
        match *self {
            LandTile::Alive => TileModel::Alive,
            LandTile::Destroyed { until_alive } => TileModel::Destroyed {
                until_alive: timer_model(until_alive),
            },
        }
    }
}

impl TileModel {
    /// The tile after a request to destroy it for `duration` nanoseconds: a living
    /// tile starts a countdown of that length, a destroyed one starts over with it.
    pub open spec fn remove(self, duration: nat) -> TileModel {
        match self {
            TileModel::Alive => TileModel::Destroyed {
                until_alive: TimerModel::fresh(duration, TimerMode::Once),
            },
            TileModel::Destroyed { until_alive } => TileModel::Destroyed {
                until_alive: until_alive.with_duration(duration).reset(),
            },
        }
    }

    /// Whether a frame of `delta` nanoseconds brings the tile back.
    pub open spec fn restores(self, delta: nat) -> bool {
        self matches TileModel::Destroyed { until_alive } && until_alive.advance(delta).finished
    }

    /// The tile after a frame of `delta` nanoseconds.
    pub open spec fn tick(self, delta: nat) -> TileModel {
        match self {
            TileModel::Alive => TileModel::Alive,
            TileModel::Destroyed { until_alive } => if until_alive.advance(delta).finished {
                TileModel::Alive
            } else {
                TileModel::Destroyed { until_alive: until_alive.advance(delta) }
            },
        }
    }
}

impl Default for LandTile {
    fn default() -> (tile: LandTile)
        ensures
            tile@ is Alive,
    {
        LandTile::Alive
    }
}

impl LandTile {
    /// Destroys the tile for `duration`: a living tile starts counting down, a
    /// destroyed one starts over with the new time.
    pub fn remove(&mut self, duration: Duration) -> (removal: Removal)
        ensures
            final(self)@ == old(self)@.remove(nanos(duration)),
            removal == if old(self)@ is Alive {
                Removal::Destroyed
            } else {
                Removal::Prolonged
            },
    {
        match self {
            LandTile::Alive => {
                *self = LandTile::Destroyed { until_alive: Timer::new(duration, TimerMode::Once) };
                Removal::Destroyed
            },
            LandTile::Destroyed { until_alive } => {
                until_alive.set_duration(duration);
                until_alive.reset();
                Removal::Prolonged
            },
        }
    }

    /// Counts a destroyed tile down by `delta` and brings it back to life if its
    /// time is up. Tells whether it was brought back.
    pub fn tick(&mut self, delta: Duration) -> (restored: bool)
        ensures
            final(self)@ == old(self)@.tick(nanos(delta)),
            restored == old(self)@.restores(nanos(delta)),
    {
        match self {
            LandTile::Alive => false,
            LandTile::Destroyed { until_alive } => {
                advance(until_alive, delta);
                if until_alive.finished() {
                    *self = LandTile::Alive;
                    true
                } else {
                    false
                }
            },
        }
    }
}

/// The tiles of a grid by column `x`, then row `y`.
pub type Grid = Seq<Seq<TileModel>>;

pub open spec fn is_grid(grid: Grid) -> bool {
    &&& grid.len() == TILES_HEIGHT
    &&& forall|x: int| 0 <= x < TILES_HEIGHT ==> (#[trigger] grid[x]).len() == TILES_WIDTH
}

/// Whether every destroyed tile of `grid` holds a non-repeating countdown that runs
/// and has not finished.
pub open spec fn is_counting_down(grid: Grid) -> bool {
    forall|x: int, y: int|
        0 <= x < TILES_HEIGHT && 0 <= y < TILES_WIDTH ==> (#[trigger] grid[x][y]
            matches TileModel::Destroyed { until_alive } ==> until_alive.mode
            != TimerMode::Repeating && !until_alive.paused && !until_alive.finished)
}

/// Whether an array position names a tile.
pub open spec fn in_grid(array_pos: (i32, i32)) -> bool {
    0 <= array_pos.0 < TILES_WIDTH && 0 <= array_pos.1 < TILES_HEIGHT
}

/// `grid` with the tile at `x`, `y` replaced.
pub open spec fn with_tile(grid: Grid, x: int, y: int, tile: TileModel) -> Grid {
    grid.update(x, grid[x].update(y, tile))
}

/// A request to destroy the tile at an array position for some time.
pub struct RemoveTile(pub (i32, i32), pub Duration);

/// The requests `requests` applied to `grid` in turn. The first request that names
/// no tile ends the run: it and all that follow it are dropped.
pub open spec fn remove_all(grid: Grid, requests: Seq<RemoveTile>) -> Grid
    decreases requests.len(),
{
    if requests.len() == 0 || !in_grid(requests[0].0) {
        grid
    } else {
        let (x, y) = (requests[0].0.0 as int, requests[0].0.1 as int);
        remove_all(
            with_tile(grid, x, y, grid[x][y].remove(nanos(requests[0].1))),
            requests.skip(1),
        )
    }
}

/// The tiles that `remove_all` finds alive and destroys, in the order of the
/// requests that hit them.
pub open spec fn newly_destroyed(grid: Grid, requests: Seq<RemoveTile>) -> Seq<(usize, usize)>
    decreases requests.len(),
{
    if requests.len() == 0 || !in_grid(requests[0].0) {
        Seq::empty()
    } else {
        let (x, y) = (requests[0].0.0 as int, requests[0].0.1 as int);
        let later = newly_destroyed(
            with_tile(grid, x, y, grid[x][y].remove(nanos(requests[0].1))),
            requests.skip(1),
        );
        if grid[x][y] is Alive {
            seq![(x as usize, y as usize)] + later
        } else {
            later
        }
    }
}

/// The tiles among the first `count` of the scan (column by column, each from row
/// zero up) that a frame of `delta` nanoseconds brings back, in scan order.
pub open spec fn restored(grid: Grid, delta: nat, count: nat) -> Seq<(usize, usize)>
    decreases count,
{
    if count == 0 {
        Seq::empty()
    } else {
        let k = (count - 1) as int;
        let (x, y) = (k / (TILES_HEIGHT as int), k % (TILES_HEIGHT as int));
        let before = restored(grid, delta, (count - 1) as nat);
        if grid[x][y].restores(delta) {
            before.push((x as usize, y as usize))
        } else {
            before
        }
    }
}

/// The tile that a sprite shows.
#[derive(Clone, Copy, Debug, PartialEq, Eq, Structural)]
pub struct TileSprite {
    pub x: usize,
    pub y: usize,
}

/// What a tile's sprite is spawned with.
pub struct TileSetup {
    pub sprite: TileSprite,
    /// Where the middle of the tile lies in the world, in pixels.
    pub position: (i64, i64),
    pub fade_away: Animation,
    pub show_up: Animation,
}

/// The animation that lets a destroyed tile fade. It waits, disabled, for a tile to
/// be destroyed.
pub fn fade_away_animation() -> (animation: Animation)
    ensures
        animation@.disabled,
        animation@.timer == TimerModel::fresh(
            (FALL_ANIMATION_MILLIS * NANOS_PER_MILLI) as nat,
            TimerMode::Once,
        ),
{
    Animation::new_disabled(Timer::new(Duration::from_millis(FALL_ANIMATION_MILLIS), TimerMode::Once))
}

/// The animation that lets a restored tile show up. It waits, disabled, for a tile
/// to be restored.
pub fn show_up_animation() -> (animation: Animation)
    ensures
        animation@.disabled,
        animation@.timer == TimerModel::fresh(
            (RESTORE_ANIMATION_MILLIS * NANOS_PER_MILLI) as nat,
            TimerMode::Once,
        ),
{
    Animation::new_disabled(
        Timer::new(Duration::from_millis(RESTORE_ANIMATION_MILLIS), TimerMode::Once),
    )
}

/// Swaps a tile's animations when it is destroyed: the restore animation stops, the
/// fade starts from zero.
pub fn start_fade_away(fade_animation: &mut Animation, show_animation: &mut Animation)
    ensures
        final(show_animation)@ == old(show_animation)@.disable(),
        final(fade_animation)@ == old(fade_animation)@.enable(),
{
    show_animation.disable();
    fade_animation.enable();
}

/// Swaps a tile's animations when it comes back: the fade stops, the restore
/// animation starts from zero.
pub fn start_show_up(fade_animation: &mut Animation, show_animation: &mut Animation)
    ensures
        final(fade_animation)@ == old(fade_animation)@.disable(),
        final(show_animation)@ == old(show_animation)@.enable(),
{
    fade_animation.disable();
    show_animation.enable();
}

/// The place of the first sprite of the tile at `x`, `y` among `sprites`, if there
/// is one.
pub fn find_tile_sprite(sprites: &Vec<TileSprite>, x: usize, y: usize) -> (found: Option<usize>)
    ensures
        found matches Some(i) ==> i < sprites.len() && sprites[i as int].x == x && sprites[i as int].y
            == y && forall|j: int| 0 <= j < i ==> !(sprites[j].x == x && sprites[j].y == y),
        found is None ==> forall|j: int|
            0 <= j < sprites.len() ==> !(sprites[j].x == x && sprites[j].y == y),
{
    let mut i: usize = 0;
    while i < sprites.len()
        invariant
            i <= sprites.len(),
            forall|j: int| 0 <= j < i ==> !(sprites[j].x == x && sprites[j].y == y),
        decreases sprites.len() - i,
    {
        if sprites[i].x == x && sprites[i].y == y {
            return Some(i);
        }
        i += 1;
    }
    None
}

/// What a request did to the grid.
#[derive(Clone, Copy, Debug, PartialEq, Eq, Structural)]
pub enum Removal {
    /// The position names no tile.
    Missed,
    /// A living tile was destroyed.
    Destroyed,
    /// A destroyed tile had its countdown started over.
    Prolonged,
}

pub struct LandTiles {
    tiles: [[LandTile; 4]; 4],
}

impl View for LandTiles {
    type V = Grid;

    closed spec fn view(&self) -> Grid {
        Seq::new(
            TILES_HEIGHT as nat,
            |x: int| Seq::new(TILES_WIDTH as nat, |y: int| self.tiles@[x]@[y]@),
        )
    }
}

impl Default for LandTiles {
    /// A grid of living tiles.
    fn default() -> (tiles: LandTiles)
        ensures
            is_grid(tiles@),
            is_counting_down(tiles@),
            forall|x: int, y: int|
                0 <= x < TILES_HEIGHT && 0 <= y < TILES_WIDTH ==> tiles@[x][y] is Alive,
    {
        LandTiles::new()
    }
}

impl LandTiles {
    /// Every value of the type is a full grid.
    pub proof fn lemma_is_grid(&self)
        ensures
            is_grid(self@),
    {
    }

    /// A grid of living tiles.
    pub fn new() -> (tiles: Self)
        ensures
            is_grid(tiles@),
            is_counting_down(tiles@),
            forall|x: int, y: int|
                0 <= x < TILES_HEIGHT && 0 <= y < TILES_WIDTH ==> tiles@[x][y] is Alive,
    {
        LandTiles {
            tiles: [
                [LandTile::Alive, LandTile::Alive, LandTile::Alive, LandTile::Alive],
                [LandTile::Alive, LandTile::Alive, LandTile::Alive, LandTile::Alive],
                [LandTile::Alive, LandTile::Alive, LandTile::Alive, LandTile::Alive],
                [LandTile::Alive, LandTile::Alive, LandTile::Alive, LandTile::Alive],
            ],
        }
    }

    /// Brings every tile back to life.
    pub fn reset(&mut self)
        ensures
            is_grid(final(self)@),
            is_counting_down(final(self)@),
            forall|x: int, y: int|
                0 <= x < TILES_HEIGHT && 0 <= y < TILES_WIDTH ==> final(self)@[x][y] is Alive,
    {
        *self = LandTiles::new();
    }

    /// The indices of the tile at an array position, where it names one.
    pub fn array_index(array_pos: (i32, i32)) -> (index: Option<(usize, usize)>)
        ensures
            index is Some <==> in_grid(array_pos),
            index matches Some(cell) ==> cell.0 == array_pos.0 && cell.1 == array_pos.1,
    {
        if array_pos.0 < 0 || array_pos.1 < 0 || array_pos.0 >= TILES_WIDTH as i32 || array_pos.1
            >= TILES_HEIGHT as i32 {
            None
        } else {
            Some((array_pos.0 as usize, array_pos.1 as usize))
        }
    }

    /// Destroys the tile that `request` names for the time that it gives. A living
    /// tile starts counting down; a destroyed one starts over with the new time; a
    /// position off the grid changes nothing.
    pub fn remove_tile(&mut self, request: &RemoveTile) -> (removal: Removal)
        ensures
            is_grid(final(self)@),
            is_counting_down(old(self)@) ==> is_counting_down(final(self)@),
            !in_grid(request.0) ==> removal == Removal::Missed && final(self)@ == old(self)@,
            in_grid(request.0) ==> {
                let (x, y) = (request.0.0 as int, request.0.1 as int);
                &&& final(self)@ == with_tile(
                    old(self)@,
                    x,
                    y,
                    old(self)@[x][y].remove(nanos(request.1)),
                )
                &&& removal == if old(self)@[x][y] is Alive {
                    Removal::Destroyed
                } else {
                    Removal::Prolonged
                }
            },
    {
        let Some((x, y)) = LandTiles::array_index(request.0) else {
            return Removal::Missed;
        };
        let removal = self.tiles[x][y].remove(request.1);
        assert(self@ =~~= with_tile(
            old(self)@,
            x as int,
            y as int,
            old(self)@[x as int][y as int].remove(nanos(request.1)),
        ));
        removal
    }

    /// Applies the requests of a frame in turn and returns the tiles that were alive
    /// and are now destroyed: those whose fade is to start. The first request that
    /// names no tile ends the frame's run; it and all that follow it are dropped.
    pub fn remove_tiles(&mut self, requests: &Vec<RemoveTile>) -> (faded: Vec<(usize, usize)>)
        ensures
            is_grid(final(self)@),
            is_counting_down(old(self)@) ==> is_counting_down(final(self)@),
            final(self)@ == remove_all(old(self)@, requests@),
            faded@ == newly_destroyed(old(self)@, requests@),
    {
        let mut faded: Vec<(usize, usize)> = Vec::new();
        let mut i: usize = 0;
        assert(requests@.skip(0) =~= requests@);
        while i < requests.len()
            invariant
                i <= requests.len(),
                is_grid(self@),
                is_counting_down(old(self)@) ==> is_counting_down(self@),
                remove_all(self@, requests@.skip(i as int)) == remove_all(old(self)@, requests@),
                faded@ + newly_destroyed(self@, requests@.skip(i as int)) == newly_destroyed(
                    old(self)@,
                    requests@,
                ),
            ensures
                is_grid(self@),
                is_counting_down(old(self)@) ==> is_counting_down(self@),
                self@ == remove_all(old(self)@, requests@),
                faded@ == newly_destroyed(old(self)@, requests@),
            decreases requests.len() - i,
        {
            let ghost before = self@;
            let ghost rest = requests@.skip(i as int);
            assert(rest[0] == requests@[i as int]);
            assert(rest.skip(1) =~= requests@.skip(i + 1));
            let removal = self.remove_tile(&requests[i]);
            match removal {
                Removal::Missed => {
                    assert(faded@ + Seq::<(usize, usize)>::empty() =~= faded@);
                    break ;
                },
                Removal::Destroyed => {
                    let ghost hit = (requests[i as int].0.0 as usize, requests[i as int].0.1 as usize);
                    assert(faded@.push(hit) + newly_destroyed(self@, rest.skip(1)) =~= faded@
                        + newly_destroyed(before, rest));
                    faded.push((requests[i].0.0 as usize, requests[i].0.1 as usize));
                },
                Removal::Prolonged => {},
            }
            i += 1;
        }
        proof {
            if i == requests.len() {
                assert(requests@.skip(i as int).len() == 0);
                assert(faded@ + Seq::<(usize, usize)>::empty() =~= faded@);
            }
        }
        faded
    }

    /// Counts every destroyed tile down by `delta` and brings back to life those
    /// whose time is up. Returns the tiles brought back, in scan order: those whose
    /// restore animation is to start.
    pub fn tick_and_restore_tiles(&mut self, delta: Duration) -> (shown: Vec<(usize, usize)>)
        ensures
            is_grid(final(self)@),
            is_counting_down(old(self)@) ==> is_counting_down(final(self)@),
            forall|x: int, y: int|
                0 <= x < TILES_WIDTH && 0 <= y < TILES_HEIGHT ==> final(self)@[x][y] == old(
                    self,
                )@[x][y].tick(nanos(delta)),
            shown@ == restored(old(self)@, nanos(delta), (TILES_WIDTH * TILES_HEIGHT) as nat),
    {
        let mut shown: Vec<(usize, usize)> = Vec::new();
        for x in 0..TILES_WIDTH
            invariant
                is_grid(self@),
                is_counting_down(old(self)@) ==> is_counting_down(self@),
                forall|a: int, b: int|
                    0 <= a < TILES_WIDTH && 0 <= b < TILES_HEIGHT ==> self@[a][b] == if a < x {
                        old(self)@[a][b].tick(nanos(delta))
                    } else {
                        old(self)@[a][b]
                    },
                shown@ == restored(old(self)@, nanos(delta), (x * TILES_HEIGHT) as nat),
        {
            for y in 0..TILES_HEIGHT
                invariant
                    x < TILES_WIDTH,
                    is_grid(self@),
                    is_counting_down(old(self)@) ==> is_counting_down(self@),
                    forall|a: int, b: int|
                        0 <= a < TILES_WIDTH && 0 <= b < TILES_HEIGHT ==> self@[a][b] == if a < x
                            || (a == x && b < y) {
                            old(self)@[a][b].tick(nanos(delta))
                        } else {
                            old(self)@[a][b]
                        },
                    shown@ == restored(old(self)@, nanos(delta), (x * TILES_HEIGHT + y) as nat),
            {
                let ghost before = self@;
                if self.tiles[x][y].tick(delta) {
                    shown.push((x, y));
                }
                assert(self@ =~~= with_tile(
                    before,
                    x as int,
                    y as int,
                    before[x as int][y as int].tick(nanos(delta)),
                ));
            }
        }
        shown
    }

    /// The middle of the tile at an array position, in pixels. The grid is centred
    /// on the origin of the world.
    pub fn array_to_world(array_pos: (i32, i32)) -> (world: (i64, i64))
        ensures
            world.0 == (array_pos.0 - TILES_WIDTH / 2) * TILE_SIZE + TILE_SIZE / 2,
            world.1 == (array_pos.1 - TILES_HEIGHT / 2) * TILE_SIZE + TILE_SIZE / 2,
    {
        let half: i64 = (TILE_SIZE / 2) as i64;
        (
            (array_pos.0 as i64 - (TILES_WIDTH / 2) as i64) * (TILE_SIZE as i64) + half,
            (array_pos.1 as i64 - (TILES_HEIGHT / 2) as i64) * (TILE_SIZE as i64) + half,
        )
    }

    /// Returns true if the array position is on an alive tile, false otherwise.
    pub fn on_ground(&self, array_pos: (i32, i32)) -> (alive: bool)
        ensures
            alive == (in_grid(array_pos) && self@[array_pos.0 as int][array_pos.1 as int] is Alive),
    {
        match LandTiles::array_index(array_pos) {
            None => false,
            Some((x, y)) => match self.tiles[x][y] {
                LandTile::Alive => true,
                LandTile::Destroyed { .. } => false,
            },
        }
    }
}

/// Whether `setup` is what the sprite of the `k`-th tile of the scan is spawned
/// with: its place in the grid and in the world, and both animations waiting.
pub open spec fn sets_up(setup: TileSetup, k: int) -> bool {
    let (x, y) = (k / (TILES_HEIGHT as int), k % (TILES_HEIGHT as int));
    &&& setup.sprite == (TileSprite { x: x as usize, y: y as usize })
    &&& setup.position.0 == (x - TILES_WIDTH / 2) * TILE_SIZE + TILE_SIZE / 2
    &&& setup.position.1 == (y - TILES_HEIGHT / 2) * TILE_SIZE + TILE_SIZE / 2
    &&& setup.fade_away@.disabled
    &&& setup.fade_away@.timer == TimerModel::fresh(
        (FALL_ANIMATION_MILLIS * NANOS_PER_MILLI) as nat,
        TimerMode::Once,
    )
    &&& setup.show_up@.disabled
    &&& setup.show_up@.timer == TimerModel::fresh(
        (RESTORE_ANIMATION_MILLIS * NANOS_PER_MILLI) as nat,
        TimerMode::Once,
    )
}

/// What to spawn for the grid: one sprite for each tile, column by column, each in
/// the middle of its tile, with both of its animations waiting.
pub fn setup_tiles() -> (sprites: Vec<TileSetup>)
    ensures
        sprites.len() == TILES_WIDTH * TILES_HEIGHT,
        forall|k: int| 0 <= k < sprites.len() ==> sets_up(#[trigger] sprites[k], k),
{
    let mut sprites: Vec<TileSetup> = Vec::new();
    for x in 0..TILES_WIDTH
        invariant
            sprites.len() == x * TILES_HEIGHT,
            forall|k: int| 0 <= k < sprites.len() ==> sets_up(#[trigger] sprites[k], k),
    {
        for y in 0..TILES_HEIGHT
            invariant
                x < TILES_WIDTH,
                sprites.len() == x * TILES_HEIGHT + y,
                forall|k: int| 0 <= k < sprites.len() ==> sets_up(#[trigger] sprites[k], k),
        {
            sprites.push(
                TileSetup {
                    sprite: TileSprite { x, y },
                    position: LandTiles::array_to_world((x as i32, y as i32)),
                    fade_away: fade_away_animation(),
                    show_up: show_up_animation(),
                },
            );
        }
    }
    sprites
}

/// The tile after the frames `deltas`, first to last, with no request in between.
pub open spec fn tile_after(tile: TileModel, deltas: Seq<nat>) -> TileModel
    decreases deltas.len(),
{
    if deltas.len() == 0 {
        tile
    } else {
        tile_after(tile.tick(deltas[0]), deltas.skip(1))
    }
}

/// In how many of the frames `deltas` the tile is brought back.
pub open spec fn restore_count(tile: TileModel, deltas: Seq<nat>) -> nat
    decreases deltas.len(),
{
    if deltas.len() == 0 {
        0
    } else {
        (if tile.restores(deltas[0]) {
            1nat
        } else {
            0nat
        }) + restore_count(tile.tick(deltas[0]), deltas.skip(1))
    }
}

/// A living tile stays alive and is never brought back.
pub proof fn lemma_alive_stays_alive(deltas: Seq<nat>)
    ensures
        tile_after(TileModel::Alive, deltas) is Alive,
        restore_count(TileModel::Alive, deltas) == 0,
    decreases deltas.len(),
{
    if deltas.len() > 0 {
        lemma_alive_stays_alive(deltas.skip(1));
    }
}

/// A destroyed tile whose countdown runs comes back in the frame that brings the
/// elapsed time to the duration: it is destroyed up to then, alive from then on, and
/// it is brought back exactly once.
pub proof fn lemma_countdown_restores_once(until_alive: TimerModel, deltas: Seq<nat>)
    requires
        until_alive.wf(),
        until_alive.mode != TimerMode::Repeating,
        !until_alive.paused,
        !until_alive.finished,
    ensures
        ({
            let tile = TileModel::Destroyed { until_alive };
            let due = deltas.len() > 0 && until_alive.elapsed + total(deltas)
                >= until_alive.duration;
            &&& tile_after(tile, deltas) is Alive <==> due
            &&& restore_count(tile, deltas) == if due {
                1nat
            } else {
                0nat
            }
        }),
    decreases deltas.len(),
{
    if deltas.len() > 0 {
        let rest = deltas.skip(1);
        let next = until_alive.advance(deltas[0]);
        if next.finished {
            lemma_alive_stays_alive(rest);
        } else {
            lemma_countdown_restores_once(next, rest);
            if rest.len() == 0 {
                assert(total(rest) == 0);
            }
        }
    }
}

/// A tile destroyed for `duration` is destroyed for that long: over frames that
/// together fall short of `duration` it stays destroyed, and in the frame that
/// completes `duration` it comes back, once.
pub proof fn lemma_destroyed_for_its_duration(before: TileModel, duration: nat, deltas: Seq<nat>)
    requires
        duration <= MAX_DURATION_NANOS,
        before matches TileModel::Destroyed { until_alive } ==> until_alive.mode
            != TimerMode::Repeating && !until_alive.paused,
    ensures
        ({
            let due = deltas.len() > 0 && total(deltas) >= duration;
            &&& before.remove(duration) is Destroyed
            &&& tile_after(before.remove(duration), deltas) is Alive <==> due
            &&& restore_count(before.remove(duration), deltas) == if due {
                1nat
            } else {
                0nat
            }
        }),
{
    lemma_countdown_restores_once(before.remove(duration)->until_alive, deltas);
}

} // verus!
