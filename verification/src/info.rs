//! The design metrics of the playfield and their scaling to a window.
//!
//! The playfield is designed in tiles and design pixels. A window shows it
//! at the largest whole scale that fits, centred, with the sky band above
//! the ground band.

use vstd::arithmetic::div_mod::{lemma_div_by_self, lemma_div_is_ordered, lemma_fundamental_div_mod};
use vstd::arithmetic::div_mod::{lemma_div_pos_is_pos, lemma_mod_bound};
use vstd::arithmetic::mul::{lemma_mul_inequality, lemma_mul_is_commutative, lemma_mul_nonnegative};
use vstd::prelude::*;

verus! {

/// A pair of design quantities, in tiles or in design pixels.
#[derive(Copy, Clone, Debug, PartialEq, Eq, Structural)]
pub struct Vec2u {
    pub x: u32,
    pub y: u32,
}

/// A pair of screen quantities, in window pixels, or a tile coordinate
/// relative to the view.
#[derive(Copy, Clone, Debug, PartialEq, Eq, Structural)]
pub struct Vec2i {
    pub x: i64,
    pub y: i64,
}

/// The side of a control icon, in design pixels.
pub const ICON_SIZE_PX: u32 = 20;

/// Whether `v` can be held in an `i64`.
pub open spec fn fits_i64(v: int) -> bool {
    i64::MIN <= v <= i64::MAX
}

/// Whether `out` is `a` times `b`, axis by axis.
pub open spec fn is_product(out: Vec2u, a: Vec2u, b: Vec2u) -> bool {
    out.x == a.x * b.x && out.y == a.y * b.y
}

/// The fixed design of the playfield: its size in tiles, the split into a
/// sky band and a ground band, the size of a tile in design pixels, and
/// the same sizes in design pixels.
#[derive(Copy, Clone, Debug, PartialEq, Eq, Structural)]
pub struct GameMetrics {
    pub full_size: Vec2u,
    pub full_size_px: Vec2u,
    pub ground_center: Vec2u,
    pub ground_center_full_px: Vec2u,
    pub ground_size: Vec2u,
    pub ground_size_px: Vec2u,
    pub ground_start: Vec2u,
    pub ground_start_px: Vec2u,
    pub sky_size: Vec2u,
    pub sky_size_px: Vec2u,
    pub tile_size_px: Vec2u,
    pub ui_size_px: Vec2u,
}

impl GameMetrics {
    /// The metrics are consistent: tiles and playfield are not empty, the
    /// sky band lies on top of the ground band and both span the width,
    /// the centre of the ground is the middle tile rounded down, and each
    /// pixel size is the tile count times the tile size.
    pub open spec fn wf(&self) -> bool {
        &&& self.tile_size_px.x > 0 && self.tile_size_px.y > 0
        &&& self.full_size.x > 0 && self.full_size.y > 0
        &&& self.sky_size.x == self.full_size.x
        &&& self.sky_size.y <= self.full_size.y
        &&& self.ground_size.x == self.full_size.x
        &&& self.ground_size.y == self.full_size.y - self.sky_size.y
        &&& self.ground_start.x == 0
        &&& self.ground_start.y == self.sky_size.y
        &&& self.ground_center.x == self.ground_size.x / 2
        &&& self.ground_center.y == self.ground_size.y / 2
        &&& is_product(self.full_size_px, self.full_size, self.tile_size_px)
        &&& is_product(self.ground_size_px, self.ground_size, self.tile_size_px)
        &&& is_product(self.ground_start_px, self.ground_start, self.tile_size_px)
        &&& is_product(self.sky_size_px, self.sky_size, self.tile_size_px)
        &&& self.ground_center_full_px.x == self.ground_center.x * self.tile_size_px.x
            + self.ground_start_px.x
        &&& self.ground_center_full_px.y == self.ground_center.y * self.tile_size_px.y
            + self.ground_start_px.y
    }

    /// The design of the game: a playfield of 15 by 12 tiles of 10 by 9
    /// pixels, the top 3 rows sky, and a control area of 210 by 120 pixels.
    pub open spec fn design() -> GameMetrics {
        GameMetrics {
            full_size: Vec2u { x: 15, y: 12 },
            full_size_px: Vec2u { x: 150, y: 108 },
            ground_center: Vec2u { x: 7, y: 4 },
            ground_center_full_px: Vec2u { x: 70, y: 63 },
            ground_size: Vec2u { x: 15, y: 9 },
            ground_size_px: Vec2u { x: 150, y: 81 },
            ground_start: Vec2u { x: 0, y: 3 },
            ground_start_px: Vec2u { x: 0, y: 27 },
            sky_size: Vec2u { x: 15, y: 3 },
            sky_size_px: Vec2u { x: 150, y: 27 },
            tile_size_px: Vec2u { x: 10, y: 9 },
            ui_size_px: Vec2u { x: 210, y: 120 },
        }
    }

    /// The design of the game.
    pub fn new() -> (metrics: GameMetrics)
        ensures
            metrics == GameMetrics::design(),
            metrics.wf(),
    {
        let full_size = Vec2u { x: 15, y: 12 };
        let sky_size = Vec2u { x: full_size.x, y: 3 };
        let ground_size = Vec2u { x: full_size.x, y: full_size.y - sky_size.y };
        let ground_start = Vec2u { x: 0, y: sky_size.y };
        let ground_center = Vec2u { x: ground_size.x / 2, y: ground_size.y / 2 };
        let tile_size_px = Vec2u { x: 10, y: 9 };
        let ground_start_px = Vec2u {
            x: ground_start.x * tile_size_px.x,
            y: ground_start.y * tile_size_px.y,
        };
        GameMetrics {
            full_size,
            full_size_px: Vec2u {
                x: full_size.x * tile_size_px.x,
                y: full_size.y * tile_size_px.y,
            },
            ground_center,
            ground_center_full_px: Vec2u {
                x: ground_center.x * tile_size_px.x + ground_start_px.x,
                y: ground_center.y * tile_size_px.y + ground_start_px.y,
            },
            ground_size,
            ground_size_px: Vec2u {
                x: ground_size.x * tile_size_px.x,
                y: ground_size.y * tile_size_px.y,
            },
            ground_start,
            ground_start_px,
            sky_size,
            sky_size_px: Vec2u { x: sky_size.x * tile_size_px.x, y: sky_size.y * tile_size_px.y },
            tile_size_px,
            ui_size_px: Vec2u { x: 210, y: 120 },
        }
    }

    /// In consistent metrics the bands and a tile are no larger than the
    /// playfield, and the ground band ends where the playfield ends.
    pub proof fn lemma_parts_within_full(self)
        requires
            self.wf(),
        ensures
            self.full_size_px.x > 0,
            self.full_size_px.y > 0,
            self.tile_size_px.x <= self.full_size_px.x,
            self.tile_size_px.y <= self.full_size_px.y,
            self.sky_size_px.x == self.full_size_px.x,
            self.sky_size_px.y <= self.full_size_px.y,
            self.ground_size_px.x == self.full_size_px.x,
            self.ground_start_px.x == 0,
            self.ground_start_px.y == self.sky_size_px.y,
            self.ground_start_px.y + self.ground_size_px.y == self.full_size_px.y,
    {
        let tx = self.tile_size_px.x as int;
        let ty = self.tile_size_px.y as int;
        lemma_mul_inequality(1, self.full_size.x as int, tx);
        lemma_mul_inequality(1, self.full_size.y as int, ty);
        lemma_mul_inequality(self.sky_size.y as int, self.full_size.y as int, ty);
        assert((self.full_size.y - self.sky_size.y) * ty + self.sky_size.y * ty == self.full_size.y
            * ty) by (nonlinear_arith);
    }
}

impl Default for GameMetrics {
    /// The design of the game.
    fn default() -> (metrics: GameMetrics)
        ensures
            metrics == GameMetrics::design(),
            metrics.wf(),
    {
        GameMetrics::new()
    }
}

/// The layout of the playfield in a window: every rectangle in window
/// pixels. It is derived from the design and the window size and holds no
/// state of its own.
#[derive(Copy, Clone, Debug, PartialEq, Eq, Structural)]
pub struct ScreenMetrics {
    pub full_size: Vec2i,
    pub full_start: Vec2i,
    pub ground_size: Vec2i,
    pub ground_start: Vec2i,
    pub icon_size: i64,
    pub scale: Vec2i,
    pub sky_size: Vec2i,
    pub sky_start: Vec2i,
    pub tile_size: Vec2i,
    pub ui_size: Vec2i,
    pub ui_start: Vec2i,
}

/// Where the four direction controls stand, in window pixels.
#[derive(Copy, Clone, Debug, PartialEq, Eq, Structural)]
pub struct Buttons {
    pub up: Vec2i,
    pub down: Vec2i,
    pub left: Vec2i,
    pub right: Vec2i,
}

/// The scale at which a window shows the playfield: the largest whole
/// number of window pixels per design pixel at which the whole playfield
/// fits, which is zero for a window smaller than the design.
pub open spec fn scale_for(game: GameMetrics, window: Vec2u) -> int {
    let across = window.x as int / game.full_size_px.x as int;
    let down = window.y as int / game.full_size_px.y as int;
    if across <= down {
        across
    } else {
        down
    }
}

impl ScreenMetrics {
    /// Whether the scaled control area of `game` in `window` can be held
    /// in the layout.
    pub open spec fn fits(game: GameMetrics, window: Vec2u) -> bool {
        &&& fits_i64(scale_for(game, window) * game.ui_size_px.x)
        &&& fits_i64(scale_for(game, window) * game.ui_size_px.y)
    }

    /// Whether this is the layout of `game` in `window`: every size is
    /// its design size times the scale, the playfield is centred in the
    /// window, the sky band starts where the playfield starts and the
    /// ground band below it, and the control area is centred too. Halves
    /// are rounded down.
    pub open spec fn is_layout(&self, game: GameMetrics, window: Vec2u) -> bool {
        let s = scale_for(game, window);
        &&& self.scale.x == s
        &&& self.scale.y == s
        &&& self.full_size.x == s * game.full_size_px.x
        &&& self.full_size.y == s * game.full_size_px.y
        &&& self.full_start.x == (window.x - s * game.full_size_px.x) / 2
        &&& self.full_start.y == (window.y - s * game.full_size_px.y) / 2
        &&& self.sky_start == self.full_start
        &&& self.sky_size.x == s * game.sky_size_px.x
        &&& self.sky_size.y == s * game.sky_size_px.y
        &&& self.ground_start.x == self.full_start.x + s * game.ground_start_px.x
        &&& self.ground_start.y == self.full_start.y + s * game.ground_start_px.y
        &&& self.ground_size.x == s * game.ground_size_px.x
        &&& self.ground_size.y == s * game.ground_size_px.y
        &&& self.tile_size.x == s * game.tile_size_px.x
        &&& self.tile_size.y == s * game.tile_size_px.y
        &&& self.icon_size == s * ICON_SIZE_PX
        &&& self.ui_size.x == s * game.ui_size_px.x
        &&& self.ui_size.y == s * game.ui_size_px.y
        &&& self.ui_start.x == (window.x - s * game.ui_size_px.x) / 2
        &&& self.ui_start.y == (window.y - s * game.ui_size_px.y) / 2
    }

    /// The window pixel at which the tile `vec` of the view is drawn. Tile
    /// rows count from the top of the ground band, and a sprite is
    /// anchored by its bottom edge: row `y` is drawn one tile higher.
    pub open spec fn tile_origin(&self, vec: Vec2i) -> (int, int) {
        (
            self.ground_start.x + vec.x * self.tile_size.x,
            self.ground_start.y + (vec.y - 1) * self.tile_size.y,
        )
    }

    /// The layout of `game` in a window of the given size.
    pub fn compute(game: &GameMetrics, window: Vec2u) -> (screen: ScreenMetrics)
        requires
            game.wf(),
            ScreenMetrics::fits(*game, window),
        ensures
            screen.is_layout(*game, window),
    {
        proof {
            game.lemma_parts_within_full();
        }
        let across: u32 = window.x / game.full_size_px.x;
        let down: u32 = window.y / game.full_size_px.y;
        let scale: u32 = if across <= down {
            across
        } else {
            down
        };
        let s: i64 = scale as i64;
        proof {
            lemma_scaled_part_fits(
                s as int,
                game.full_size_px.x as int,
                game.full_size_px.x as int,
                window.x as int,
            );
            lemma_scaled_part_fits(
                s as int,
                game.full_size_px.y as int,
                game.full_size_px.y as int,
                window.y as int,
            );
            lemma_scaled_part_fits(
                s as int,
                game.sky_size_px.y as int,
                game.full_size_px.y as int,
                window.y as int,
            );
            lemma_scaled_part_fits(
                s as int,
                game.ground_start_px.y as int,
                game.full_size_px.y as int,
                window.y as int,
            );
            lemma_scaled_part_fits(
                s as int,
                game.ground_size_px.y as int,
                game.full_size_px.y as int,
                window.y as int,
            );
            lemma_scaled_part_fits(
                s as int,
                game.tile_size_px.x as int,
                game.full_size_px.x as int,
                window.x as int,
            );
            lemma_scaled_part_fits(
                s as int,
                game.tile_size_px.y as int,
                game.full_size_px.y as int,
                window.y as int,
            );
            lemma_mul_nonnegative(s as int, game.ui_size_px.x as int);
            lemma_mul_nonnegative(s as int, game.ui_size_px.y as int);
            assert(s * game.ground_start_px.x == 0) by (nonlinear_arith)
                requires
                    game.ground_start_px.x == 0,
            ;
        }
        let icon: i64 = ICON_SIZE_PX as i64;
        assert(icon == 20);
        let full_size = Vec2i {
            x: s * (game.full_size_px.x as i64),
            y: s * (game.full_size_px.y as i64),
        };
        let full_start = Vec2i {
            x: (window.x as i64 - full_size.x) / 2,
            y: (window.y as i64 - full_size.y) / 2,
        };
        let ui_size = Vec2i {
            x: s * (game.ui_size_px.x as i64),
            y: s * (game.ui_size_px.y as i64),
        };
        ScreenMetrics {
            full_size,
            full_start,
            ground_size: Vec2i {
                x: s * (game.ground_size_px.x as i64),
                y: s * (game.ground_size_px.y as i64),
            },
            ground_start: Vec2i {
                x: full_start.x + s * (game.ground_start_px.x as i64),
                y: full_start.y + s * (game.ground_start_px.y as i64),
            },
            icon_size: s * icon,
            scale: Vec2i { x: s, y: s },
            sky_size: Vec2i {
                x: s * (game.sky_size_px.x as i64),
                y: s * (game.sky_size_px.y as i64),
            },
            sky_start: full_start,
            tile_size: Vec2i {
                x: s * (game.tile_size_px.x as i64),
                y: s * (game.tile_size_px.y as i64),
            },
            ui_size,
            ui_start: Vec2i {
                x: half_floor(window.x as i64 - ui_size.x),
                y: half_floor(window.y as i64 - ui_size.y),
            },
        }
    }

    /// Where the direction controls stand in a window `window_x` pixels
    /// wide, as `(near_x, far_x, upper_y, lower_y)`. The controls for up
    /// and down stand at the left edge of the window, 7 scaled pixels in;
    /// those for left and right at the right edge, an icon and 4 scaled
    /// pixels in. The upper control of each pair stands 5 scaled pixels
    /// below the top of the control area, the lower one an icon and 10
    /// scaled pixels further down.
    pub open spec fn button_spots(&self, window_x: u32) -> (int, int, int, int) {
        (
            7 * self.scale.x,
            window_x - 4 * self.scale.x - self.icon_size,
            self.ui_start.y + 5 * self.scale.y,
            self.ui_start.y + 5 * self.scale.y + self.icon_size + 10 * self.scale.y,
        )
    }

    /// Where the direction controls stand in a window `window_x` pixels
    /// wide.
    pub fn buttons(&self, window_x: u32) -> (buttons: Buttons)
        requires
            fits_i64(self.button_spots(window_x).0),
            fits_i64(self.button_spots(window_x).1),
            fits_i64(self.button_spots(window_x).2),
            fits_i64(self.button_spots(window_x).3),
        ensures
            buttons.up.x == self.button_spots(window_x).0,
            buttons.down.x == self.button_spots(window_x).0,
            buttons.left.x == self.button_spots(window_x).1,
            buttons.right.x == self.button_spots(window_x).1,
            buttons.up.y == self.button_spots(window_x).2,
            buttons.left.y == self.button_spots(window_x).2,
            buttons.down.y == self.button_spots(window_x).3,
            buttons.right.y == self.button_spots(window_x).3,
    {
        let near_x: i128 = 7 * (self.scale.x as i128);
        let far_x: i128 = window_x as i128 - 4 * (self.scale.x as i128) - self.icon_size as i128;
        let upper_y: i128 = self.ui_start.y as i128 + 5 * (self.scale.y as i128);
        let lower_y: i128 = upper_y + self.icon_size as i128 + 10 * (self.scale.y as i128);
        Buttons {
            up: Vec2i { x: near_x as i64, y: upper_y as i64 },
            down: Vec2i { x: near_x as i64, y: lower_y as i64 },
            left: Vec2i { x: far_x as i64, y: upper_y as i64 },
            right: Vec2i { x: far_x as i64, y: lower_y as i64 },
        }
    }

    /// The window pixel at which the tile `vec` of the view is drawn.
    pub fn tile(&self, vec: Vec2i) -> (origin: Vec2i)
        requires
            fits_i64(self.tile_origin(vec).0),
            fits_i64(self.tile_origin(vec).1),
        ensures
            (origin.x as int, origin.y as int) == self.tile_origin(vec),
    {
        let x: i128 = self.ground_start.x as i128 + wide_product(vec.x, self.tile_size.x);
        let row: i128 = vec.y as i128 - 1;
        proof {
            lemma_product_bound(row as int, self.tile_size.y as int);
        }
        let y: i128 = self.ground_start.y as i128 + row * (self.tile_size.y as i128);
        Vec2i { x: x as i64, y: y as i64 }
    }
}

impl Default for ScreenMetrics {
    /// The layout before any window is known: everything zero.
    fn default() -> (screen: ScreenMetrics)
        ensures
            screen == (ScreenMetrics {
                full_size: Vec2i { x: 0, y: 0 },
                full_start: Vec2i { x: 0, y: 0 },
                ground_size: Vec2i { x: 0, y: 0 },
                ground_start: Vec2i { x: 0, y: 0 },
                icon_size: 0,
                scale: Vec2i { x: 0, y: 0 },
                sky_size: Vec2i { x: 0, y: 0 },
                sky_start: Vec2i { x: 0, y: 0 },
                tile_size: Vec2i { x: 0, y: 0 },
                ui_size: Vec2i { x: 0, y: 0 },
                ui_start: Vec2i { x: 0, y: 0 },
            }),
    {
        let zero = Vec2i { x: 0, y: 0 };
        ScreenMetrics {
            full_size: zero,
            full_start: zero,
            ground_size: zero,
            ground_start: zero,
            icon_size: 0,
            scale: zero,
            sky_size: zero,
            sky_start: zero,
            tile_size: zero,
            ui_size: zero,
            ui_start: zero,
        }
    }
}

/// Half of `d`, rounded down.
fn half_floor(d: i64) -> (h: i64)
    ensures
        h == d as int / 2,
{
    if d >= 0 {
        d / 2
    } else {
        let below: i64 = -(d + 1);
        -(below / 2) - 1
    }
}

/// The quotient of `a` by a positive `d`, rounded down.
pub(crate) fn div_floor(a: i64, d: i64) -> (q: i64)
    requires
        d > 0,
    ensures
        q == a as int / d as int,
{
    if a >= 0 {
        proof {
            lemma_div_pos_is_pos(a as int, d as int);
            lemma_fundamental_div_mod(a as int, d as int);
            lemma_mod_bound(a as int, d as int);
            lemma_mul_inequality(1, d as int, a as int / d as int);
            lemma_mul_is_commutative(d as int, a as int / d as int);
        }
        a / d
    } else {
        let below: i64 = -(a + 1);
        let steps: i64 = below / d;
        proof {
            let b = below as int;
            let n = d as int;
            lemma_fundamental_div_mod(b, n);
            lemma_mod_bound(b, n);
            lemma_div_pos_is_pos(b, n);
            lemma_mul_inequality(1, n, b / n);
            lemma_mul_is_commutative(n, b / n);
            let q = -(b / n) - 1;
            let r = n - 1 - b % n;
            assert(q * n == -(n * (b / n)) - n) by (nonlinear_arith)
                requires
                    q == -(b / n) - 1,
            ;
            assert(a as int == q * n + r);
            vstd::arithmetic::div_mod::lemma_fundamental_div_mod_converse(a as int, n, q, r);
        }
        -steps - 1
    }
}

/// The product of two `i64` in full width.
pub(crate) fn wide_product(a: i64, b: i64) -> (p: i128)
    ensures
        p == a * b,
{
    proof {
        lemma_product_bound(a as int, b as int);
    }
    (a as i128) * (b as i128)
}

/// A product of two numbers of about 64 bits stays well inside 128 bits.
proof fn lemma_product_bound(a: int, b: int)
    requires
        -0x8000_0000_0000_0001 <= a <= 0x8000_0000_0000_0001,
        -0x8000_0000_0000_0000 <= b <= 0x8000_0000_0000_0000,
    ensures
        -0x4000_0000_0000_0000_8000_0000_0000_0000 <= a * b
            <= 0x4000_0000_0000_0000_8000_0000_0000_0000,
{
    assert(-0x4000_0000_0000_0000_8000_0000_0000_0000 <= a * b
        <= 0x4000_0000_0000_0000_8000_0000_0000_0000) by (nonlinear_arith)
        requires
            -0x8000_0000_0000_0001 <= a <= 0x8000_0000_0000_0001,
            -0x8000_0000_0000_0000 <= b <= 0x8000_0000_0000_0000,
    ;
}

/// A part of the design, scaled, fits where the whole fits.
proof fn lemma_scaled_part_fits(s: int, part: int, whole: int, room: int)
    requires
        0 <= part <= whole,
        0 < whole,
        0 <= room,
        0 <= s <= room / whole,
    ensures
        0 <= s * part <= room,
{
    lemma_fundamental_div_mod(room, whole);
    lemma_mod_bound(room, whole);
    lemma_mul_is_commutative(whole, room / whole);
    lemma_mul_inequality(s, room / whole, whole);
    lemma_mul_inequality(part, whole, s);
    lemma_mul_is_commutative(part, s);
    lemma_mul_is_commutative(whole, s);
    lemma_mul_nonnegative(s, part);
}

/// A larger window never shows the playfield at a smaller scale.
pub proof fn lemma_scale_monotonic(game: GameMetrics, smaller: Vec2u, larger: Vec2u)
    requires
        game.wf(),
        smaller.x <= larger.x,
        smaller.y <= larger.y,
    ensures
        scale_for(game, smaller) <= scale_for(game, larger),
{
    game.lemma_parts_within_full();
    lemma_div_is_ordered(smaller.x as int, larger.x as int, game.full_size_px.x as int);
    lemma_div_is_ordered(smaller.y as int, larger.y as int, game.full_size_px.y as int);
}

/// A window of exactly the design size shows the playfield at scale 1 and
/// without margin.
pub proof fn lemma_native_window(game: GameMetrics, screen: ScreenMetrics)
    requires
        game.wf(),
        screen.is_layout(game, game.full_size_px),
    ensures
        scale_for(game, game.full_size_px) == 1,
        screen.scale == (Vec2i { x: 1, y: 1 }),
        screen.full_start == (Vec2i { x: 0, y: 0 }),
        screen.full_size.x == game.full_size_px.x,
        screen.full_size.y == game.full_size_px.y,
{
    game.lemma_parts_within_full();
    lemma_div_by_self(game.full_size_px.x as int);
    lemma_div_by_self(game.full_size_px.y as int);
    assert(scale_for(game, game.full_size_px) == 1);
    assert(1 * game.full_size_px.x == game.full_size_px.x);
    assert(1 * game.full_size_px.y == game.full_size_px.y);
}

/// The playfield lies inside the window, and the two bands fill it: the
/// sky band lies on top, the ground band begins where the sky band ends
/// and ends where the playfield ends, and both span its width.
pub proof fn lemma_layout_inside_window(game: GameMetrics, window: Vec2u, screen: ScreenMetrics)
    requires
        game.wf(),
        screen.is_layout(game, window),
    ensures
        0 <= screen.full_start.x,
        0 <= screen.full_start.y,
        screen.full_start.x + screen.full_size.x <= window.x,
        screen.full_start.y + screen.full_size.y <= window.y,
        screen.sky_start == screen.full_start,
        screen.sky_size.x == screen.full_size.x,
        screen.ground_size.x == screen.full_size.x,
        screen.ground_start.x == screen.full_start.x,
        screen.ground_start.y == screen.sky_start.y + screen.sky_size.y,
        screen.ground_start.y + screen.ground_size.y == screen.full_start.y + screen.full_size.y,
{
    let s = scale_for(game, window);
    game.lemma_parts_within_full();
    lemma_div_pos_is_pos(window.x as int, game.full_size_px.x as int);
    lemma_div_pos_is_pos(window.y as int, game.full_size_px.y as int);
    lemma_scaled_part_fits(
        s,
        game.full_size_px.x as int,
        game.full_size_px.x as int,
        window.x as int,
    );
    lemma_scaled_part_fits(
        s,
        game.full_size_px.y as int,
        game.full_size_px.y as int,
        window.y as int,
    );
    assert(s * game.ground_start_px.x == 0) by (nonlinear_arith)
        requires
            game.ground_start_px.x == 0,
    ;
    assert(s * game.ground_start_px.y + s * game.ground_size_px.y == s * game.full_size_px.y)
        by (nonlinear_arith)
        requires
            game.ground_start_px.y + game.ground_size_px.y == game.full_size_px.y,
    ;
}

} // verus!
