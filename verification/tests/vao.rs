use point_cloud_viewer::geometry::model::Model;
use point_cloud_viewer::gl_wrappers::buffer::{Binding, Buffer};
use point_cloud_viewer::gl_wrappers::vao::{AttributeFormat, DataType, Divisor, VAO};
use point_cloud_viewer::rendering::draw_functions::RenderFunction;
use point_cloud_viewer::rendering::scene_renderer::{RenderInformation, SceneRenderer};
use point_cloud_viewer::rendering::text_rendering::{TextRendering, GLYPHS};

fn floats(index: u32, count: i32) -> AttributeFormat {
    AttributeFormat { index, count, data_type: DataType::Float, normalized: false, relative_offset: 0 }
}

/// The stride that a ring is bound with, if it is a ring of attributes.
fn bound_stride(ring: &Buffer) -> Option<(u32, i64)> {
    match ring.update_binding() {
        Binding::VertexBuffer { binding_point, stride, .. } => Some((binding_point, stride as i64)),
        Binding::ElementArray { .. } => None,
    }
}

#[test]
fn a_layout_records_what_it_is_told() {
    let mut vao = VAO::new();
    assert!(vao.formats().is_empty());
    assert!(vao.divisors().is_empty());
    assert_eq!(vao.stride(0), None);

    vao.specify_index_layout(2, 3, DataType::Float, false, 0);
    vao.specify_divisor(2, 1);
    vao.specify_index_layout(5, 4, DataType::Float, true, 8);
    assert_eq!(
        vao.formats(),
        &vec![
            floats(2, 3),
            AttributeFormat {
                index: 5,
                count: 4,
                data_type: DataType::Float,
                normalized: true,
                relative_offset: 8
            }
        ]
    );
    assert_eq!(vao.divisors(), &vec![Divisor { index: 2, divisor: 1 }]);
    assert_eq!(vao.stride(2), Some(12));
    assert_eq!(vao.stride(5), Some(16));
    assert_eq!(vao.stride(3), None);
}

#[test]
fn the_last_format_of_an_index_counts() {
    let mut vao = VAO::new();
    vao.specify_index_layout(1, 3, DataType::Float, false, 0);
    vao.specify_index_layout(0, 1, DataType::Float, false, 0);
    vao.specify_index_layout(1, 2, DataType::Float, false, 0);
    assert_eq!(vao.stride(1), Some(8));
    assert_eq!(vao.stride(0), Some(4));
    vao.specify_index_layout(7, i32::MAX, DataType::Float, false, 0);
    assert_eq!(vao.stride(7), Some(4 * i32::MAX as i64));
    vao.specify_index_layout(7, -1, DataType::Float, false, 0);
    assert_eq!(vao.stride(7), Some(-4));
}

#[test]
fn the_rings_of_a_scene_fit_its_layout() {
    let cube = RenderInformation {
        geometry: Model::new(8, 8, 8, 36).unwrap(),
        command: RenderFunction::Cube,
    };
    let (scene, _) = SceneRenderer::new(vec![cube], 3000).unwrap();
    assert_eq!(
        scene.vao().formats(),
        &vec![floats(0, 3), floats(1, 2), floats(2, 3), floats(3, 3), floats(4, 3)]
    );
    assert_eq!(
        scene.vao().divisors(),
        &vec![Divisor { index: 3, divisor: 1 }, Divisor { index: 4, divisor: 1 }]
    );
    let rings = [
        (scene.vertices(), 0, 12),
        (scene.tex_coords(), 1, 8),
        (scene.normals(), 2, 12),
        (scene.instanced_colours(), 3, 12),
        (scene.instanced_translations(), 4, 12),
    ];
    for (ring, binding_point, stride) in rings {
        assert_eq!(bound_stride(ring), Some((binding_point, stride)));
        assert_eq!(scene.vao().stride(binding_point), Some(stride));
    }
    assert_eq!(bound_stride(scene.indices()), None);
}

#[test]
fn the_rings_of_text_fit_its_layout() {
    let (text, _) = TextRendering::new(vec![true; GLYPHS]);
    assert_eq!(text.vao().formats(), &vec![floats(0, 2), floats(1, 2)]);
    assert!(text.vao().divisors().is_empty());
    assert_eq!(bound_stride(text.plane_buffer()), Some((0, 8)));
    assert_eq!(bound_stride(text.tex_coords_buffer()), Some((1, 8)));
    assert_eq!(text.vao().stride(0), Some(8));
    assert_eq!(text.vao().stride(1), Some(8));
}
