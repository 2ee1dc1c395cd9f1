use point_cloud_viewer::geometry::geometry_trait::RenderableGeometry;
use point_cloud_viewer::geometry::grid::{Grid, GridColour};
use point_cloud_viewer::geometry::model::{Mesh, Model};

#[test]
fn the_grid_has_four_half_axes() {
    let grid = Grid::new(500);
    assert_eq!(grid.get_num_instances(), 500);
    assert_eq!(grid.get_translations().len(), 2000);
    assert_eq!(grid.get_colours().len(), 2000);
    assert_eq!(grid.get_colours()[0], GridColour::NegativeX);
    assert_eq!(grid.get_colours()[500], GridColour::PositiveX);
    assert_eq!(grid.get_colours()[1000], GridColour::NegativeZ);
    assert_eq!(grid.get_colours()[1500], GridColour::PositiveZ);
    let axes = grid.get_colours().iter().filter(|colour| **colour != GridColour::Line).count();
    assert_eq!(axes, 4);
    for head in [0, 500, 1000, 1500] {
        assert_eq!(grid.get_translations()[head], (0, 0, 0));
    }
}

#[test]
fn grid_lines_are_one_unit_apart() {
    let grid = Grid::new(6);
    let along_x = vec![(0, 0, 0), (0, 0, -3), (0, 0, -2), (0, 0, -1), (0, 0, 1), (0, 0, 2)];
    let along_z = vec![(0, 0, 0), (-3, 0, 0), (-2, 0, 0), (-1, 0, 0), (1, 0, 0), (2, 0, 0)];
    let mut expected = along_x.clone();
    expected.extend(along_x);
    expected.extend(along_z.clone());
    expected.extend(along_z);
    assert_eq!(grid.get_translations(), &expected);
    let colours = grid.get_colours();
    for (i, colour) in colours.iter().enumerate() {
        let expected = match i {
            0 => GridColour::NegativeX,
            6 => GridColour::PositiveX,
            12 => GridColour::NegativeZ,
            18 => GridColour::PositiveZ,
            _ => GridColour::Line,
        };
        assert_eq!(*colour, expected);
    }
}

#[test]
fn the_grid_is_made_like_a_filtered_range() {
    for lines in [-7, -2, -1, 0, 1, 2, 3, 4, 5, 9, 10] {
        let half: i32 = lines / 2;
        let shifts: Vec<i32> = (-half..half).filter(|x| *x != 0).collect();
        let mut expected = Vec::new();
        for group in 0..4 {
            expected.push((0, 0, 0));
            for shift in &shifts {
                expected.push(if group < 2 { (0, 0, *shift) } else { (*shift, 0, 0) });
            }
        }
        let grid = Grid::new(lines);
        assert_eq!(grid.get_translations(), &expected);
        assert_eq!(grid.get_colours().len(), expected.len());
        assert_eq!(grid.get_num_instances(), lines);
    }
}

#[test]
fn the_grid_is_eight_vertices() {
    let grid = Grid::new(500);
    assert_eq!(grid.num_vertices(), 8);
    assert_eq!(grid.num_normals(), 8);
    assert_eq!(grid.num_tex_coords(), 8);
    assert_eq!(grid.num_indices(), 0);
    assert_eq!(grid.len_vertices_bytes(), 96);
    assert_eq!(grid.len_normals_bytes(), 96);
    assert_eq!(grid.len_tex_coords_bytes(), 64);
    assert_eq!(grid.len_indices_bytes(), 0);
}

#[test]
fn a_model_knows_the_bytes_of_its_arrays() {
    let model = Model::new(8, 6, 7, 36).unwrap();
    assert_eq!(model.num_vertices(), 8);
    assert_eq!(model.num_tex_coords(), 6);
    assert_eq!(model.num_normals(), 7);
    assert_eq!(model.num_indices(), 36);
    assert_eq!(model.len_vertices_bytes(), 96);
    assert_eq!(model.len_tex_coords_bytes(), 48);
    assert_eq!(model.len_normals_bytes(), 84);
    assert_eq!(model.len_indices_bytes(), 144);
}

#[test]
fn a_model_must_fit_a_signed_size() {
    let limit = isize::MAX as usize;
    assert!(Model::new(limit / 12, limit / 8, limit / 12, limit / 4).is_some());
    assert!(Model::new(limit / 12 + 1, 0, 0, 0).is_none());
    assert!(Model::new(0, limit / 8 + 1, 0, 0).is_none());
    assert!(Model::new(0, 0, limit / 12 + 1, 0).is_none());
    assert!(Model::new(0, 0, 0, limit / 4 + 1).is_none());
}

#[test]
fn meshes_are_put_behind_each_other() {
    let meshes = vec![
        Mesh { indices: vec![0, 1, 2, 2, 1, 3], positions: 12, normals: 12, texcoords: 8 },
        Mesh { indices: vec![0, 1, 2], positions: 9, normals: 0, texcoords: 6 },
        Mesh { indices: vec![], positions: 7, normals: 5, texcoords: 3 },
        Mesh { indices: vec![1, 0], positions: 6, normals: 6, texcoords: 4 },
    ];
    let (model, indices) = Model::from_meshes(&meshes).unwrap();
    assert_eq!(indices, vec![0, 1, 2, 2, 1, 3, 4, 5, 6, 10, 9]);
    assert_eq!(model.num_vertices(), 4 + 3 + 2 + 2);
    assert_eq!(model.num_normals(), 4 + 0 + 1 + 2);
    assert_eq!(model.num_tex_coords(), 4 + 3 + 1 + 2);
    assert_eq!(model.num_indices(), 11);
}

#[test]
fn no_meshes_make_an_empty_model() {
    let (model, indices) = Model::from_meshes(&Vec::new()).unwrap();
    assert!(indices.is_empty());
    assert_eq!(model.num_vertices(), 0);
    assert_eq!(model.len_indices_bytes(), 0);
}

#[test]
fn indices_must_stay_within_32_bits() {
    let meshes = vec![
        Mesh { indices: vec![u32::MAX], positions: 3, normals: 0, texcoords: 0 },
        Mesh { indices: vec![u32::MAX - 1], positions: 3, normals: 0, texcoords: 0 },
    ];
    let (_, indices) = Model::from_meshes(&meshes).unwrap();
    assert_eq!(indices, vec![u32::MAX, u32::MAX]);
    let meshes = vec![
        Mesh { indices: vec![], positions: 3, normals: 0, texcoords: 0 },
        Mesh { indices: vec![5, u32::MAX], positions: 3, normals: 0, texcoords: 0 },
    ];
    assert!(Model::from_meshes(&meshes).is_none());
    let meshes = vec![
        Mesh { indices: vec![], positions: usize::MAX, normals: 0, texcoords: 0 },
    ];
    assert!(Model::from_meshes(&meshes).is_none());
}
