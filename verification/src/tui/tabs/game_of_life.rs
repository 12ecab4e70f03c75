//! Conway's Game of Life, shown in the AI tab.

use vstd::prelude::*;
use rand::Rng;
use std::time::Instant;

verus! {

/// The time type of `std`, carried through opaquely.
#[verifier::external_type_specification]
#[verifier::external_body]
pub struct ExInstant(std::time::Instant);

/// The current time, by `Instant::now`.
#[verifier::external_body]
fn now() -> (r: Instant) {
    Instant::now()
}

/// Milliseconds elapsed since `since`, by `Instant::elapsed` and
/// `Duration::as_millis`; the value depends on the clock.
#[verifier::external_body]
fn elapsed_millis(since: &Instant) -> (r: u128) {
    since.elapsed().as_millis()
}

/// A random cell, alive with probability 3/10, by `Rng::gen_ratio` on the
/// thread's generator; which value comes back is left to chance.
#[verifier::external_body]
fn random_cell() -> (r: bool) {
    rand::thread_rng().gen_ratio(3, 10)
}

/// The board of the Game of Life and its timing.
#[derive(Debug)]
pub struct GameOfLifeState {
    pub grid: Vec<Vec<bool>>,
    pub width: usize,
    pub height: usize,
    pub generation: u32,
    pub last_update: Instant,
    /// Milliseconds between generations.
    pub update_interval_ms: u64,
    pub paused: bool,
}

/// The cells of a grid, row by row.
pub open spec fn cells(grid: Seq<Vec<bool>>) -> Seq<Seq<bool>> {
    grid.map_values(|row: Vec<bool>| row@)
}

/// Whether `c` has `height` rows of `width` cells.
pub open spec fn has_dims(c: Seq<Seq<bool>>, width: int, height: int) -> bool {
    c.len() == height && forall|y: int| 0 <= y < height ==> (#[trigger] c[y]).len() == width
}

/// One if the cell at (`x`, `y`) is on the board and alive, else zero.
pub open spec fn alive(c: Seq<Seq<bool>>, width: int, height: int, x: int, y: int) -> int {
    if 0 <= x < width && 0 <= y < height && c[y][x] {
        1
    } else {
        0
    }
}

/// The number of live cells among the eight around (`x`, `y`); the board
/// does not wrap around.
pub open spec fn neighbor_count(c: Seq<Seq<bool>>, width: int, height: int, x: int, y: int) -> int {
    alive(c, width, height, x - 1, y - 1) + alive(c, width, height, x, y - 1) + alive(
        c,
        width,
        height,
        x + 1,
        y - 1,
    ) + alive(c, width, height, x - 1, y) + alive(c, width, height, x + 1, y) + alive(
        c,
        width,
        height,
        x - 1,
        y + 1,
    ) + alive(c, width, height, x, y + 1) + alive(c, width, height, x + 1, y + 1)
}

/// Conway's rule: a live cell with two or three live neighbours survives, a
/// dead cell with exactly three is born, every other cell is dead.
pub open spec fn next_alive(is_alive: bool, neighbors: int) -> bool {
    (is_alive && (neighbors == 2 || neighbors == 3)) || (!is_alive && neighbors == 3)
}

/// The next generation of a board.
pub open spec fn next_generation(c: Seq<Seq<bool>>, width: int, height: int) -> Seq<Seq<bool>> {
    Seq::new(
        height as nat,
        |y: int|
            Seq::new(
                width as nat,
                |x: int| next_alive(c[y][x], neighbor_count(c, width, height, x, y)),
            ),
    )
}

/// Whether a generation is due on `s` after `elapsed_ms` milliseconds since
/// the last one: when not paused and the interval has passed.
pub open spec fn due_at(s: GameOfLifeState, elapsed_ms: u128) -> bool {
    !s.paused && elapsed_ms >= s.update_interval_ms
}

/// Whether `after` is `before` one generation on: the next board by
/// Conway's rule, the generation counted, size, interval and pause flag
/// kept.
pub open spec fn stepped(before: GameOfLifeState, after: GameOfLifeState) -> bool {
    &&& after.well_formed()
    &&& cells(after.grid@) == next_generation(cells(before.grid@), before.width as int, before.height as int)
    &&& after.generation == before.generation + 1
    &&& after.width == before.width
    &&& after.height == before.height
    &&& after.paused == before.paused
    &&& after.update_interval_ms == before.update_interval_ms
}

impl GameOfLifeState {
    /// Whether the grid has the state's dimensions.
    pub open spec fn well_formed(&self) -> bool {
        has_dims(cells(self.grid@), self.width as int, self.height as int)
    }

    /// A random board of `width` by `height` cells at generation zero,
    /// running at eight generations a second.
    pub fn new(width: usize, height: usize) -> (r: Self)
        ensures
            r.well_formed(),
            r.width == width,
            r.height == height,
            r.generation == 0,
            r.update_interval_ms == 125,
            !r.paused,
    {
        let mut grid: Vec<Vec<bool>> = Vec::new();
        let mut y: usize = 0;
        while y < height
            invariant
                y <= height,
                grid@.len() == y,
                forall|k: int| 0 <= k < y ==> (#[trigger] grid@[k])@.len() == width,
            decreases height - y,
        {
            let mut row: Vec<bool> = Vec::new();
            let mut x: usize = 0;
            while x < width
                invariant
                    x <= width,
                    row@.len() == x,
                decreases width - x,
            {
                row.push(random_cell());
                x = x + 1;
            }
            grid.push(row);
            y = y + 1;
        }
        GameOfLifeState {
            grid,
            width,
            height,
            generation: 0,
            last_update: now(),
            update_interval_ms: 125,
            paused: false,
        }
    }

    /// Whether a generation is due after `elapsed_ms` milliseconds: when not
    /// paused and the interval has passed.
    pub fn update_due(&self, elapsed_ms: u128) -> (r: bool)
        ensures
            r == (!self.paused && elapsed_ms >= self.update_interval_ms),
    {
        !self.paused && elapsed_ms >= self.update_interval_ms as u128
    }

    /// Whether a generation is due now: `due_at` for the milliseconds the
    /// clock reports since the last generation; never while paused.
    pub fn should_update(&self) -> (r: bool)
        ensures
            self.paused ==> !r,
            exists|elapsed_ms: u128| r == #[trigger] due_at(*self, elapsed_ms),
    {
        let elapsed = elapsed_millis(&self.last_update);
        let r = self.update_due(elapsed);
        assert(r == due_at(*self, elapsed));
        r
    }

    /// Whether the cell at (`x` + `dx`, `y` + `dy`) is on the board and
    /// alive.
    fn neighbor_alive(&self, x: usize, y: usize, dx: i8, dy: i8) -> (r: usize)
        requires
            self.well_formed(),
            x < self.width,
            y < self.height,
            -1 <= dx <= 1,
            -1 <= dy <= 1,
        ensures
            r == alive(cells(self.grid@), self.width as int, self.height as int, x + dx, y + dy),
    {
        let ghost c = cells(self.grid@);
        if (dx < 0 && x == 0) || (dy < 0 && y == 0) {
            return 0;
        }
        let nx: usize = if dx < 0 {
            x - 1
        } else if dx > 0 {
            x + 1
        } else {
            x
        };
        let ny: usize = if dy < 0 {
            y - 1
        } else if dy > 0 {
            y + 1
        } else {
            y
        };
        if nx < self.width && ny < self.height {
            assert(c[ny as int] == self.grid@[ny as int]@);
            assert(c[ny as int].len() == self.width);
            if self.grid[ny][nx] {
                1
            } else {
                0
            }
        } else {
            0
        }
    }

    /// The number of live neighbours of the cell at (`x`, `y`).
    pub fn count_neighbors(&self, x: usize, y: usize) -> (r: usize)
        requires
            self.well_formed(),
            x < self.width,
            y < self.height,
        ensures
            r == neighbor_count(cells(self.grid@), self.width as int, self.height as int, x as int, y as int),
    {
        let mut count: usize = 0;
        count = count + self.neighbor_alive(x, y, -1, -1);
        count = count + self.neighbor_alive(x, y, 0, -1);
        count = count + self.neighbor_alive(x, y, 1, -1);
        count = count + self.neighbor_alive(x, y, -1, 0);
        count = count + self.neighbor_alive(x, y, 1, 0);
        count = count + self.neighbor_alive(x, y, -1, 1);
        count = count + self.neighbor_alive(x, y, 0, 1);
        count = count + self.neighbor_alive(x, y, 1, 1);
        count
    }

    /// Advance the board one generation by Conway's rule.
    pub fn step(&mut self)
        requires
            old(self).well_formed(),
            old(self).generation < u32::MAX,
        ensures
            final(self).well_formed(),
            cells(final(self).grid@) == next_generation(
                cells(old(self).grid@),
                old(self).width as int,
                old(self).height as int,
            ),
            final(self).generation == old(self).generation + 1,
            final(self).width == old(self).width,
            final(self).height == old(self).height,
            final(self).paused == old(self).paused,
            final(self).update_interval_ms == old(self).update_interval_ms,
    {
        let ghost c = cells(self.grid@);
        let ghost w = self.width as int;
        let ghost h = self.height as int;
        let mut new_grid: Vec<Vec<bool>> = Vec::new();
        let mut y: usize = 0;
        while y < self.height
            invariant
                self.well_formed(),
                c == cells(self.grid@),
                w == self.width,
                h == self.height,
                y <= self.height,
                new_grid@.len() == y,
                forall|k: int| 0 <= k < y ==> (#[trigger] new_grid@[k])@ == next_generation(c, w, h)[k],
            decreases self.height - y,
        {
            let mut row: Vec<bool> = Vec::new();
            let mut x: usize = 0;
            while x < self.width
                invariant
                    self.well_formed(),
                    c == cells(self.grid@),
                    w == self.width,
                    h == self.height,
                    y < self.height,
                    x <= self.width,
                    row@.len() == x,
                    forall|k: int| 0 <= k < x ==> row@[k] == next_generation(c, w, h)[y as int][k],
                decreases self.width - x,
            {
                let alive_neighbors = self.count_neighbors(x, y);
                assert(c[y as int] == self.grid@[y as int]@);
                let is_alive = self.grid[y][x];
                let next = match (is_alive, alive_neighbors) {
                    (true, 2) | (true, 3) => true,
                    (false, 3) => true,
                    _ => false,
                };
                row.push(next);
                x = x + 1;
            }
            assert(row@ =~= next_generation(c, w, h)[y as int]);
            new_grid.push(row);
            y = y + 1;
        }
        assert(cells(new_grid@) =~= next_generation(c, w, h));
        self.grid = new_grid;
        self.generation = self.generation + 1;
    }

    /// Advance one generation when one is due; a paused board never changes.
    pub fn update(&mut self)
        requires
            old(self).well_formed(),
            old(self).generation < u32::MAX,
        ensures
            final(self).well_formed(),
            final(self).width == old(self).width,
            final(self).height == old(self).height,
            final(self).paused == old(self).paused,
            final(self).update_interval_ms == old(self).update_interval_ms,
            old(self).paused ==> cells(final(self).grid@) == cells(old(self).grid@)
                && final(self).generation == old(self).generation,
            (cells(final(self).grid@) == cells(old(self).grid@) && final(self).generation
                == old(self).generation) || (cells(final(self).grid@) == next_generation(
                cells(old(self).grid@),
                old(self).width as int,
                old(self).height as int,
            ) && final(self).generation == old(self).generation + 1),
            exists|elapsed_ms: u128|
                if #[trigger] due_at(*old(self), elapsed_ms) {
                    stepped(*old(self), *final(self))
                } else {
                    *final(self) == *old(self)
                },
    {
        let elapsed = elapsed_millis(&self.last_update);
        self.update_after(elapsed);
    }

    /// Advance one generation when one is due `elapsed_ms` milliseconds
    /// after the last one, restarting the timing; otherwise change nothing.
    pub fn update_after(&mut self, elapsed_ms: u128)
        requires
            old(self).well_formed(),
            old(self).generation < u32::MAX,
        ensures
            if due_at(*old(self), elapsed_ms) {
                stepped(*old(self), *final(self))
            } else {
                *final(self) == *old(self)
            },
    {
        if !self.update_due(elapsed_ms) {
            return;
        }
        self.step();
        self.last_update = now();
    }

    /// Whether the grid has the state's dimensions, checked cell row by
    /// cell row.
    pub fn is_well_formed(&self) -> (r: bool)
        ensures
            r == self.well_formed(),
    {
        if self.grid.len() != self.height {
            return false;
        }
        let mut y: usize = 0;
        while y < self.grid.len()
            invariant
                self.grid@.len() == self.height,
                y <= self.height,
                forall|k: int| 0 <= k < y ==> (#[trigger] cells(self.grid@)[k]).len() == self.width,
            decreases self.height - y,
        {
            if self.grid[y].len() != self.width {
                assert(cells(self.grid@)[y as int].len() != self.width);
                return false;
            }
            y = y + 1;
        }
        true
    }

    /// Pause or resume.
    pub fn toggle_pause(&mut self)
        ensures
            toggled(*old(self), *final(self)),
    {
        self.paused = !self.paused;
    }

    /// Start again with a new random board of the same size.
    pub fn reset(&mut self)
        ensures
            final(self).well_formed(),
            final(self).width == old(self).width,
            final(self).height == old(self).height,
            final(self).generation == 0,
            final(self).update_interval_ms == 125,
            !final(self).paused,
    {
        *self = GameOfLifeState::new(self.width, self.height);
    }

    /// Resize the board: cells inside both the old and the new size are
    /// kept, cells outside the old size are random.
    pub fn set_size(&mut self, width: usize, height: usize)
        requires
            old(self).well_formed(),
        ensures
            final(self).well_formed(),
            final(self).width == width,
            final(self).height == height,
            final(self).generation == old(self).generation,
            final(self).paused == old(self).paused,
            final(self).update_interval_ms == old(self).update_interval_ms,
            final(self).last_update == old(self).last_update,
            forall|x: int, y: int|
                0 <= x < width && 0 <= y < height && x < old(self).width && y < old(self).height
                    ==> cells(final(self).grid@)[y][x] == cells(old(self).grid@)[y][x],
            width == old(self).width && height == old(self).height ==> *final(self) == *old(self),
    {
        if width == self.width && height == self.height {
            return;
        }
        let ghost c = cells(self.grid@);
        let old_width = self.width;
        let old_height = self.height;
        let mut new_grid: Vec<Vec<bool>> = Vec::new();
        let mut y: usize = 0;
        while y < height
            invariant
                self.well_formed(),
                c == cells(self.grid@),
                old_width == self.width,
                old_height == self.height,
                y <= height,
                new_grid@.len() == y,
                forall|k: int| 0 <= k < y ==> (#[trigger] new_grid@[k])@.len() == width,
                forall|xx: int, k: int|
                    #![trigger new_grid@[k]@[xx]]
                    0 <= xx < width && 0 <= k < y && xx < old_width && k < old_height
                        ==> new_grid@[k]@[xx] == c[k][xx],
            decreases height - y,
        {
            let mut row: Vec<bool> = Vec::new();
            let mut x: usize = 0;
            while x < width
                invariant
                    self.well_formed(),
                    c == cells(self.grid@),
                    old_width == self.width,
                    old_height == self.height,
                    y < height,
                    x <= width,
                    row@.len() == x,
                    forall|xx: int|
                        0 <= xx < x && xx < old_width && y < old_height ==> row@[xx] == c[y as int][xx],
                decreases width - x,
            {
                let cell = if x < old_width && y < old_height {
                    assert(c[y as int] == self.grid@[y as int]@);
                    self.grid[y][x]
                } else {
                    random_cell()
                };
                row.push(cell);
                x = x + 1;
            }
            new_grid.push(row);
            y = y + 1;
        }
        self.grid = new_grid;
        self.width = width;
        self.height = height;
    }
}

/// Whether `after` is `before` paused or resumed: the pause flag flips,
/// the board, its size, its generation and its interval stay.
pub open spec fn toggled(before: GameOfLifeState, after: GameOfLifeState) -> bool {
    &&& after.paused == !before.paused
    &&& cells(after.grid@) == cells(before.grid@)
    &&& after.generation == before.generation
    &&& after.width == before.width
    &&& after.height == before.height
    &&& after.update_interval_ms == before.update_interval_ms
    &&& after.last_update == before.last_update
}

/// Pausing and resuming gives back the board as it was, running or paused
/// as before.
pub proof fn toggle_twice_restores(a: GameOfLifeState, b: GameOfLifeState, c: GameOfLifeState)
    requires
        toggled(a, b),
        toggled(b, c),
    ensures
        c.paused == a.paused,
        cells(c.grid@) == cells(a.grid@),
        c.generation == a.generation,
        c.width == a.width && c.height == a.height,
        c.update_interval_ms == a.update_interval_ms,
        c.last_update == a.last_update,
{
}

/// A generation keeps the board's size.
pub proof fn generation_keeps_size(c: Seq<Seq<bool>>, width: int, height: int)
    requires
        0 <= width,
        0 <= height,
    ensures
        has_dims(next_generation(c, width, height), width, height),
{
}

/// Conway's rule on every cell of a board: with four or more live
/// neighbours a cell is dead next (overcrowding), with fewer than two too
/// (loneliness); with exactly three it is alive next; with exactly two it
/// stays as it is.
pub proof fn conway_rule_on_every_cell(c: Seq<Seq<bool>>, width: int, height: int, x: int, y: int)
    requires
        0 <= x < width,
        0 <= y < height,
        has_dims(c, width, height),
    ensures
        neighbor_count(c, width, height, x, y) >= 4 ==> !next_generation(c, width, height)[y][x],
        neighbor_count(c, width, height, x, y) < 2 ==> !next_generation(c, width, height)[y][x],
        neighbor_count(c, width, height, x, y) == 3 ==> next_generation(c, width, height)[y][x],
        neighbor_count(c, width, height, x, y) == 2 ==> next_generation(c, width, height)[y][x] == c[y][x],
        0 <= neighbor_count(c, width, height, x, y) <= 8,
{
}

} // verus!
