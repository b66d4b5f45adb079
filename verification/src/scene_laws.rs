//! What holds of every scene: which cells it draws, and where on the screen.

use vstd::prelude::*;
use vstd::seq_lib::{lemma_seq_concat_contains_all_elements, lemma_seq_contains_after_push};
use crate::camera::Camera;
use crate::geometry::Point;
use crate::map::TileGrid;
use crate::scene::{
    drawn, row_scene, rows_scene, scene, screen_fits, swept, tile_command, DrawCommand, TileGlyphs,
};

verus! {

/// Whether `command` is the one that draws the cell `(x, y)`, a cell that is
/// drawn.
pub open spec fn draws_cell(
    grid: TileGrid,
    camera: Camera,
    occupied: Set<Point>,
    glyphs: TileGlyphs,
    command: DrawCommand,
    x: int,
    y: int,
) -> bool {
    drawn(occupied, x, y) && command == tile_command(grid, camera, glyphs, x, y)
}

/// A row of the scene up to `x_end` holds the commands of the drawn cells of
/// that row left of `x_end`, and no others.
pub proof fn lemma_row_scene_cells(
    grid: TileGrid,
    camera: Camera,
    occupied: Set<Point>,
    glyphs: TileGlyphs,
    y: int,
    x_end: int,
)
    ensures
        forall|c: DrawCommand| #[trigger]
            row_scene(grid, camera, occupied, glyphs, y, x_end).contains(c) ==> exists|x: int|
                camera.left_x <= x < x_end && #[trigger] draws_cell(
                    grid,
                    camera,
                    occupied,
                    glyphs,
                    c,
                    x,
                    y,
                ),
        forall|x: int|
            camera.left_x <= x < x_end && drawn(occupied, x, y) ==> row_scene(
                grid,
                camera,
                occupied,
                glyphs,
                y,
                x_end,
            ).contains(#[trigger] tile_command(grid, camera, glyphs, x, y)),
    decreases x_end - camera.left_x,
{
    let row = row_scene(grid, camera, occupied, glyphs, y, x_end);
    if x_end > camera.left_x {
        let before = row_scene(grid, camera, occupied, glyphs, y, x_end - 1);
        let last = tile_command(grid, camera, glyphs, x_end - 1, y);
        lemma_row_scene_cells(grid, camera, occupied, glyphs, y, x_end - 1);
        assert forall|c: DrawCommand| #[trigger] row.contains(c) implies exists|x: int|
            camera.left_x <= x < x_end && #[trigger] draws_cell(
                grid,
                camera,
                occupied,
                glyphs,
                c,
                x,
                y,
            ) by {
            lemma_seq_contains_after_push(before, last, c);
            if before.contains(c) {
                let x = choose|x: int|
                    camera.left_x <= x < x_end - 1 && #[trigger] draws_cell(
                        grid,
                        camera,
                        occupied,
                        glyphs,
                        c,
                        x,
                        y,
                    );
                assert(camera.left_x <= x < x_end && draws_cell(
                    grid,
                    camera,
                    occupied,
                    glyphs,
                    c,
                    x,
                    y,
                ));
            } else {
                assert(draws_cell(grid, camera, occupied, glyphs, c, x_end - 1, y));
            }
        }
        assert forall|x: int| camera.left_x <= x < x_end && drawn(occupied, x, y) implies row.contains(
            #[trigger] tile_command(grid, camera, glyphs, x, y),
        ) by {
            lemma_seq_contains_after_push(before, last, tile_command(grid, camera, glyphs, x, y));
        }
    }
}

/// The rows of the scene up to `y_end` hold the commands of the drawn cells
/// that the camera sweeps above `y_end`, and no others.
pub proof fn lemma_rows_scene_cells(
    grid: TileGrid,
    camera: Camera,
    occupied: Set<Point>,
    glyphs: TileGlyphs,
    y_end: int,
)
    ensures
        forall|c: DrawCommand| #[trigger]
            rows_scene(grid, camera, occupied, glyphs, y_end).contains(c) ==> exists|
                x: int,
                y: int,
            |
                camera.left_x <= x < camera.right_x && camera.top_y <= y < y_end
                    && #[trigger] draws_cell(grid, camera, occupied, glyphs, c, x, y),
        forall|x: int, y: int|
            camera.left_x <= x < camera.right_x && camera.top_y <= y < y_end && drawn(
                occupied,
                x,
                y,
            ) ==> rows_scene(grid, camera, occupied, glyphs, y_end).contains(
                #[trigger] tile_command(grid, camera, glyphs, x, y),
            ),
    decreases y_end - camera.top_y,
{
    let rows = rows_scene(grid, camera, occupied, glyphs, y_end);
    if y_end > camera.top_y {
        let above = rows_scene(grid, camera, occupied, glyphs, y_end - 1);
        let row = row_scene(grid, camera, occupied, glyphs, y_end - 1, camera.right_x as int);
        lemma_rows_scene_cells(grid, camera, occupied, glyphs, y_end - 1);
        lemma_row_scene_cells(grid, camera, occupied, glyphs, y_end - 1, camera.right_x as int);
        assert forall|c: DrawCommand| #[trigger] rows.contains(c) implies exists|x: int, y: int|
            camera.left_x <= x < camera.right_x && camera.top_y <= y < y_end
                && #[trigger] draws_cell(grid, camera, occupied, glyphs, c, x, y) by {
            lemma_seq_concat_contains_all_elements(above, row, c);
            if above.contains(c) {
                let (x, y) = choose|x: int, y: int|
                    camera.left_x <= x < camera.right_x && camera.top_y <= y < y_end - 1
                        && #[trigger] draws_cell(grid, camera, occupied, glyphs, c, x, y);
                assert(camera.left_x <= x < camera.right_x && camera.top_y <= y < y_end
                    && draws_cell(grid, camera, occupied, glyphs, c, x, y));
            } else {
                let x = choose|x: int|
                    camera.left_x <= x < camera.right_x && #[trigger] draws_cell(
                        grid,
                        camera,
                        occupied,
                        glyphs,
                        c,
                        x,
                        y_end - 1,
                    );
                assert(camera.left_x <= x < camera.right_x && camera.top_y <= y_end - 1 < y_end
                    && draws_cell(grid, camera, occupied, glyphs, c, x, y_end - 1));
            }
        }
        assert forall|x: int, y: int|
            camera.left_x <= x < camera.right_x && camera.top_y <= y < y_end && drawn(
                occupied,
                x,
                y,
            ) implies rows.contains(#[trigger] tile_command(grid, camera, glyphs, x, y)) by {
            lemma_seq_concat_contains_all_elements(
                above,
                row,
                tile_command(grid, camera, glyphs, x, y),
            );
        }
    }
}

/// The scene holds the command of each cell that the camera sweeps, that lies
/// on the map and that is not occupied; and every command of the scene is the
/// command of such a cell. A cell on the camera's right bound is not swept; a
/// cell on its left, top or bottom bound is.
pub proof fn lemma_scene_cells(
    grid: TileGrid,
    camera: Camera,
    occupied: Set<Point>,
    glyphs: TileGlyphs,
)
    ensures
        forall|c: DrawCommand| #[trigger]
            scene(grid, camera, occupied, glyphs).contains(c) ==> exists|x: int, y: int|
                swept(camera, x, y) && #[trigger] draws_cell(
                    grid,
                    camera,
                    occupied,
                    glyphs,
                    c,
                    x,
                    y,
                ),
        forall|x: int, y: int|
            swept(camera, x, y) && drawn(occupied, x, y) ==> scene(
                grid,
                camera,
                occupied,
                glyphs,
            ).contains(#[trigger] tile_command(grid, camera, glyphs, x, y)),
{
    lemma_rows_scene_cells(grid, camera, occupied, glyphs, camera.bottom_y + 1);
    assert forall|c: DrawCommand| #[trigger]
        scene(grid, camera, occupied, glyphs).contains(c) implies exists|x: int, y: int|
        swept(camera, x, y) && #[trigger] draws_cell(grid, camera, occupied, glyphs, c, x, y) by {
        let (x, y) = choose|x: int, y: int|
            camera.left_x <= x < camera.right_x && camera.top_y <= y < camera.bottom_y + 1
                && #[trigger] draws_cell(grid, camera, occupied, glyphs, c, x, y);
        assert(swept(camera, x, y) && draws_cell(grid, camera, occupied, glyphs, c, x, y));
    }
}

/// Nothing is drawn at the screen position of an occupied cell of the map, and
/// nothing at or beyond the screen column of the camera's right bound, nor
/// below the screen row of its bottom bound.
pub proof fn lemma_scene_screen_positions(
    grid: TileGrid,
    camera: Camera,
    occupied: Set<Point>,
    glyphs: TileGlyphs,
    c: DrawCommand,
)
    requires
        screen_fits(camera),
        scene(grid, camera, occupied, glyphs).contains(c),
    ensures
        0 <= c.x < camera.right_x - camera.left_x,
        0 <= c.y <= camera.bottom_y - camera.top_y,
        drawn(occupied, c.x + camera.left_x, c.y + camera.top_y),
        !occupied.contains(Point { x: (c.x + camera.left_x) as i32, y: (c.y + camera.top_y) as i32 }),
        c == tile_command(grid, camera, glyphs, c.x + camera.left_x, c.y + camera.top_y),
{
    lemma_scene_cells(grid, camera, occupied, glyphs);
    let (x, y) = choose|x: int, y: int|
        swept(camera, x, y) && #[trigger] draws_cell(grid, camera, occupied, glyphs, c, x, y);
    assert(c.x == x - camera.left_x);
    assert(c.y == y - camera.top_y);
}

/// Whether `a` stands before `b` on the screen, read row by row.
pub open spec fn screen_before(a: DrawCommand, b: DrawCommand) -> bool {
    a.y < b.y || (a.y == b.y && a.x < b.x)
}

/// The commands of a row stand in that row of the screen, left of the column
/// of `x_end`, each left of the next.
pub proof fn lemma_row_scene_ordered(
    grid: TileGrid,
    camera: Camera,
    occupied: Set<Point>,
    glyphs: TileGlyphs,
    y: int,
    x_end: int,
)
    requires
        screen_fits(camera),
    ensures
        forall|i: int|
            0 <= i < row_scene(grid, camera, occupied, glyphs, y, x_end).len() ==> {
                let c = #[trigger] row_scene(grid, camera, occupied, glyphs, y, x_end)[i];
                c.y == y - camera.top_y && c.x < x_end - camera.left_x
            },
        forall|i: int, j: int|
            0 <= i < j < row_scene(grid, camera, occupied, glyphs, y, x_end).len() ==> screen_before(
                #[trigger] row_scene(grid, camera, occupied, glyphs, y, x_end)[i],
                #[trigger] row_scene(grid, camera, occupied, glyphs, y, x_end)[j],
            ),
    decreases x_end - camera.left_x,
{
    if x_end > camera.left_x {
        lemma_row_scene_ordered(grid, camera, occupied, glyphs, y, x_end - 1);
    }
}

/// The commands of the rows above `y_end` stand above that row of the screen,
/// each before the next.
pub proof fn lemma_rows_scene_ordered(
    grid: TileGrid,
    camera: Camera,
    occupied: Set<Point>,
    glyphs: TileGlyphs,
    y_end: int,
)
    requires
        screen_fits(camera),
    ensures
        forall|i: int|
            0 <= i < rows_scene(grid, camera, occupied, glyphs, y_end).len() ==> (
            #[trigger] rows_scene(grid, camera, occupied, glyphs, y_end)[i]).y < y_end
                - camera.top_y,
        forall|i: int, j: int|
            0 <= i < j < rows_scene(grid, camera, occupied, glyphs, y_end).len() ==> screen_before(
                #[trigger] rows_scene(grid, camera, occupied, glyphs, y_end)[i],
                #[trigger] rows_scene(grid, camera, occupied, glyphs, y_end)[j],
            ),
    decreases y_end - camera.top_y,
{
    if y_end > camera.top_y {
        lemma_rows_scene_ordered(grid, camera, occupied, glyphs, y_end - 1);
        lemma_row_scene_ordered(grid, camera, occupied, glyphs, y_end - 1, camera.right_x as int);
    }
}

/// The scene is in the order of the screen, row by row and from left to right
/// in a row: so no two of its commands draw at the same screen position, and
/// a cell that is drawn is drawn once.
pub proof fn lemma_scene_ordered(
    grid: TileGrid,
    camera: Camera,
    occupied: Set<Point>,
    glyphs: TileGlyphs,
)
    requires
        screen_fits(camera),
    ensures
        forall|i: int, j: int|
            0 <= i < j < scene(grid, camera, occupied, glyphs).len() ==> screen_before(
                #[trigger] scene(grid, camera, occupied, glyphs)[i],
                #[trigger] scene(grid, camera, occupied, glyphs)[j],
            ),
        forall|i: int, j: int|
            0 <= i < scene(grid, camera, occupied, glyphs).len() && 0 <= j < scene(
                grid,
                camera,
                occupied,
                glyphs,
            ).len() && i != j ==> {
                let a = #[trigger] scene(grid, camera, occupied, glyphs)[i];
                let b = #[trigger] scene(grid, camera, occupied, glyphs)[j];
                a.x != b.x || a.y != b.y
            },
{
    lemma_rows_scene_ordered(grid, camera, occupied, glyphs, camera.bottom_y + 1);
    let sc = scene(grid, camera, occupied, glyphs);
    assert forall|i: int, j: int| 0 <= i < sc.len() && 0 <= j < sc.len() && i != j implies {
        let a = #[trigger] sc[i];
        let b = #[trigger] sc[j];
        a.x != b.x || a.y != b.y
    } by {
        if i < j {
            assert(screen_before(sc[i], sc[j]));
        } else {
            assert(screen_before(sc[j], sc[i]));
        }
    }
}

} // verus!
