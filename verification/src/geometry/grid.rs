//! The world grid that gives the point cloud a sense of scale.
//!
//! The grid is four half axes, each drawn as one line segment that is
//! repeated, shifted sideways, once per grid line. What is kept here is the
//! list of those repetitions: by how many world units each is shifted, and
//! which colour it has.

use vstd::prelude::*;
use crate::geometry::geometry_trait::{GeometryView, RenderableGeometry, VEC2_BYTES, VEC3_BYTES};

verus! {

/// Number of vertices of the grid: two ends for each of the four half axes.
pub const GRID_VERTICES: usize = 8;

/// The colour of a grid line.
#[derive(Clone, Copy, Debug, PartialEq, Eq, Structural)]
pub enum GridColour {
    /// The line on the negative half of the x axis.
    NegativeX,
    /// The line on the positive half of the x axis.
    PositiveX,
    /// The line on the negative half of the z axis.
    NegativeZ,
    /// The line on the positive half of the z axis.
    PositiveZ,
    /// Any line beside an axis.
    Line,
}

/// A shift in whole world units along x, y and z.
pub type GridTranslation = (i32, i32, i32);

/// Grid lines to either side of an axis: half the lines of a dimension,
/// none where fewer than two are asked for.
pub open spec fn half_lines(num_lines_per_dimension: i32) -> int {
    if num_lines_per_dimension >= 2 {
        num_lines_per_dimension as int / 2
    } else {
        0
    }
}

/// Number of repetitions of one half axis: the axis itself, and every shift
/// from `-half` up to `half - 1` but zero.
pub open spec fn lines_per_half_axis(half: int) -> int {
    if half >= 1 {
        2 * half
    } else {
        1
    }
}

/// The shift of the `j`-th repetition of a half axis.
pub open spec fn shift_of(half: int, j: int) -> int {
    if j == 0 {
        0
    } else if j <= half {
        j - 1 - half
    } else {
        j - half
    }
}

/// The colour of the axis line of the half axis `group`.
pub open spec fn axis_colour(group: int) -> GridColour {
    if group == 0 {
        GridColour::NegativeX
    } else if group == 1 {
        GridColour::PositiveX
    } else if group == 2 {
        GridColour::NegativeZ
    } else {
        GridColour::PositiveZ
    }
}

/// The translation of the `j`-th repetition of the half axis `group`: lines
/// along x are shifted along z, lines along z are shifted along x.
pub open spec fn translation_of(group: int, half: int, j: int) -> GridTranslation {
    if group < 2 {
        (0i32, 0i32, shift_of(half, j) as i32)
    } else {
        (shift_of(half, j) as i32, 0i32, 0i32)
    }
}

/// The colour of the `j`-th repetition of the half axis `group`.
pub open spec fn colour_of(group: int, j: int) -> GridColour {
    if j == 0 {
        axis_colour(group)
    } else {
        GridColour::Line
    }
}

/// The translations of all repetitions of the half axis `group`.
pub open spec fn group_translations(group: int, half: int) -> Seq<GridTranslation> {
    Seq::new(lines_per_half_axis(half) as nat, |j: int| translation_of(group, half, j))
}

/// The colours of all repetitions of the half axis `group`.
pub open spec fn group_colours(group: int, half: int) -> Seq<GridColour> {
    Seq::new(lines_per_half_axis(half) as nat, |j: int| colour_of(group, j))
}

/// The translations of the whole grid: the negative and positive half of
/// the x axis, then those of the z axis.
pub open spec fn grid_translations(half: int) -> Seq<GridTranslation> {
    group_translations(0, half) + group_translations(1, half) + group_translations(2, half)
        + group_translations(3, half)
}

/// The colours of the whole grid, in the order of its translations.
pub open spec fn grid_colours(half: int) -> Seq<GridColour> {
    group_colours(0, half) + group_colours(1, half) + group_colours(2, half) + group_colours(
        3,
        half,
    )
}

/// The world grid.
pub struct Grid {
    translations: Vec<GridTranslation>,
    colours: Vec<GridColour>,
    num_lines: i32,
}

/// The mathematical model of a grid.
pub struct GridView {
    pub translations: Seq<GridTranslation>,
    pub colours: Seq<GridColour>,
    pub num_lines: i32,
}

impl View for Grid {
    type V = GridView;

    closed spec fn view(&self) -> GridView {
        GridView {
            translations: self.translations@,
            colours: self.colours@,
            num_lines: self.num_lines,
        }
    }
}

impl Grid {
    /// A grid has one colour for each translation.
    pub open spec fn wf(&self) -> bool {
        self@.translations.len() == self@.colours.len()
    }

    /// The grid with `num_lines_per_dimension` lines across each dimension,
    /// one world unit apart.
    pub fn new(num_lines_per_dimension: i32) -> (grid: Grid)
        ensures
            grid.wf(),
            grid@.num_lines == num_lines_per_dimension,
            grid@.translations == grid_translations(half_lines(num_lines_per_dimension)),
            grid@.colours == grid_colours(half_lines(num_lines_per_dimension)),
            grid@.translations.len() == 4 * lines_per_half_axis(
                half_lines(num_lines_per_dimension),
            ),
    {
        let half: i32 = if num_lines_per_dimension >= 2 {
            num_lines_per_dimension / 2
        } else {
            0
        };
        let mut translations: Vec<GridTranslation> = Vec::new();
        let mut colours: Vec<GridColour> = Vec::new();
        let mut group: u8 = 0;
        while group < 4
            invariant
                group <= 4,
                0 <= half <= i32::MAX / 2,
                half == half_lines(num_lines_per_dimension),
                translations@.len() == group * lines_per_half_axis(half as int),
                colours@.len() == translations@.len(),
                group == 0 ==> translations@ =~= Seq::<GridTranslation>::empty() && colours@
                    =~= Seq::<GridColour>::empty(),
                group == 1 ==> translations@ =~= group_translations(0, half as int) && colours@
                    =~= group_colours(0, half as int),
                group == 2 ==> translations@ =~= group_translations(0, half as int)
                    + group_translations(1, half as int) && colours@ =~= group_colours(
                    0,
                    half as int,
                ) + group_colours(1, half as int),
                group == 3 ==> translations@ =~= group_translations(0, half as int)
                    + group_translations(1, half as int) + group_translations(2, half as int)
                    && colours@ =~= group_colours(0, half as int) + group_colours(1, half as int)
                    + group_colours(2, half as int),
                group == 4 ==> translations@ =~= grid_translations(half as int) && colours@
                    =~= grid_colours(half as int),
            decreases 4 - group,
        {
            let ghost before_translations = translations@;
            let ghost before_colours = colours@;
            let head: GridColour = if group == 0 {
                GridColour::NegativeX
            } else if group == 1 {
                GridColour::PositiveX
            } else if group == 2 {
                GridColour::NegativeZ
            } else {
                GridColour::PositiveZ
            };
            translations.push((0, 0, 0));
            colours.push(head);
            let mut j: i32 = 1;
            while j < 2 * half
                invariant
                    1 <= j,
                    half >= 1 ==> j <= 2 * half,
                    half == 0 ==> j == 1,
                    0 <= half <= i32::MAX / 2,
                    group < 4,
                    translations@.len() == before_translations.len() + j,
                    colours@.len() == before_colours.len() + j,
                    translations@ =~= before_translations + Seq::new(
                        j as nat,
                        |k: int| translation_of(group as int, half as int, k),
                    ),
                    colours@ =~= before_colours + Seq::new(
                        j as nat,
                        |k: int| colour_of(group as int, k),
                    ),
                decreases 2 * half - j,
            {
                let shift: i32 = if j <= half {
                    j - 1 - half
                } else {
                    j - half
                };
                if group < 2 {
                    translations.push((0, 0, shift));
                } else {
                    translations.push((shift, 0, 0));
                }
                colours.push(GridColour::Line);
                j = j + 1;
            }
            proof {
                assert(j == lines_per_half_axis(half as int));
                assert(translations@ =~= before_translations + group_translations(
                    group as int,
                    half as int,
                ));
                assert(colours@ =~= before_colours + group_colours(group as int, half as int));
                assert((group + 1) * lines_per_half_axis(half as int) == group
                    * lines_per_half_axis(half as int) + lines_per_half_axis(half as int))
                    by (nonlinear_arith);
            }
            group = group + 1;
        }
        Grid { translations, colours, num_lines: num_lines_per_dimension }
    }

    /// The translations of the grid lines.
    pub fn get_translations(&self) -> (translations: &Vec<GridTranslation>)
        ensures
            translations@ == self@.translations,
    {
        &self.translations
    }

    /// The colours of the grid lines.
    pub fn get_colours(&self) -> (colours: &Vec<GridColour>)
        ensures
            colours@ == self@.colours,
    {
        &self.colours
    }

    /// The number of lines across each dimension that the grid was made for.
    pub fn get_num_instances(&self) -> (lines: i32)
        ensures
            lines == self@.num_lines,
    {
        self.num_lines
    }
}

impl RenderableGeometry for Grid {
    open spec fn geometry(&self) -> GeometryView {
        GeometryView {
            vertices: GRID_VERTICES as nat,
            tex_coords: GRID_VERTICES as nat,
            normals: GRID_VERTICES as nat,
            indices: 0,
        }
    }

    fn len_vertices_bytes(&self) -> (bytes: isize) {
        (GRID_VERTICES * VEC3_BYTES) as isize
    }

    fn len_indices_bytes(&self) -> (bytes: isize) {
        0
    }

    fn len_tex_coords_bytes(&self) -> (bytes: isize) {
        (GRID_VERTICES * VEC2_BYTES) as isize
    }

    fn len_normals_bytes(&self) -> (bytes: isize) {
        self.len_vertices_bytes()
    }

    fn num_vertices(&self) -> (count: usize) {
        GRID_VERTICES
    }

    fn num_tex_coords(&self) -> (count: usize) {
        GRID_VERTICES
    }

    fn num_normals(&self) -> (count: usize) {
        GRID_VERTICES
    }

    fn num_indices(&self) -> (count: usize) {
        0
    }
}

} // verus!
