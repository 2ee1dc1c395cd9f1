use point_cloud_viewer::geometry::model::Model;
use point_cloud_viewer::gl_wrappers::buffer::{Binding, CopyCommand, FenceState, WriteCommand};
use point_cloud_viewer::gl_wrappers::shader_program_creation::ShaderType;
use point_cloud_viewer::rendering::draw_functions::{DrawCallInfo, RenderFunction};
use point_cloud_viewer::rendering::scene_renderer::{
    clip_instances, create_shader_program, store_records, GridDraw, InstanceWrite, ModelDraw,
    ModelId, RenderInformation, SceneError, SceneRenderer, SceneRendererBuilder,
    UploadInformation, FENCE_TIMEOUT, MAX_SCENE_INSTANCES,
};

fn cube() -> RenderInformation {
    RenderInformation {
        geometry: Model::new(8, 8, 8, 36).unwrap(),
        command: RenderFunction::Cube,
    }
}

fn sun() -> RenderInformation {
    RenderInformation { geometry: Model::new(5, 4, 3, 12).unwrap(), command: RenderFunction::Sun }
}

fn scene(max_number_instances: u32) -> (SceneRenderer, ModelId, ModelId) {
    let mut builder = SceneRendererBuilder::new();
    let cube_id = builder.add_model(cube());
    let sun_id = builder.add_model(sun());
    let (scene, _) = builder.build(max_number_instances).unwrap();
    (scene, cube_id, sun_id)
}

fn write(region: usize, offset: isize, count: usize, size: usize, binding: Binding) -> WriteCommand {
    WriteCommand {
        timeout: FENCE_TIMEOUT,
        copy: CopyCommand {
            region,
            element_offset: offset,
            element_count: count,
            element_size: size,
        },
        binding,
    }
}

fn array(binding_point: u32, stride: i32) -> Binding {
    Binding::VertexBuffer { binding_point, region: 0, offset: 0, stride }
}

#[test]
fn buffers_hold_the_marker_the_grid_and_every_model() {
    let (scene, _, _) = scene(3000);
    assert_eq!(scene.vertices().size_buffer_bytes(), (2 + 8 + 13) * 12);
    assert_eq!(scene.tex_coords().size_buffer_bytes(), (2 + 8 + 12) * 8);
    assert_eq!(scene.normals().size_buffer_bytes(), (2 + 8 + 11) * 12);
    assert_eq!(scene.indices().size_buffer_bytes(), 48 * 4);
    assert_eq!(scene.instanced_translations().size_buffer_bytes(), 3000 * 12);
    assert_eq!(scene.instanced_colours().size_buffer_bytes(), 3000 * 12);
    for buffer in [
        scene.vertices(),
        scene.tex_coords(),
        scene.normals(),
        scene.indices(),
        scene.instanced_translations(),
        scene.instanced_colours(),
    ] {
        assert_eq!(buffer.number_buffers(), 1);
        assert_eq!(buffer.current_buffer_index(), 0);
        assert_eq!(buffer.fence_state(0), Some(FenceState::Satisfied));
    }
    assert_eq!(scene.max_number_instances(), 3000);
    assert_eq!(scene.base_number_instances(), 8 + 13);
    assert_eq!(scene.current_instance_upload_index(), 8 + 13);
    assert_eq!(scene.grid().get_num_instances(), 500);
    assert_eq!(scene.grid().get_translations().len(), 2000);
}

#[test]
fn static_geometry_is_stored_back_to_back() {
    let mut builder = SceneRendererBuilder::new();
    builder.add_model(cube());
    builder.add_model(sun());
    let (_, upload) = builder.build(3000).unwrap();

    assert_eq!(upload.grid.vertices, write(0, 2, 8, 12, array(0, 12)));
    assert_eq!(upload.grid.tex_coords, write(0, 2, 8, 8, array(1, 8)));
    assert_eq!(upload.grid.normals, write(0, 2, 8, 12, array(2, 12)));
    assert_eq!(upload.grid.indices, write(0, 0, 0, 4, Binding::ElementArray { region: 0 }));
    assert_eq!(upload.grid.instanced_translations, write(0, 2, 8, 12, array(4, 12)));
    assert_eq!(upload.grid.instanced_colours, write(0, 2, 8, 12, array(3, 12)));

    assert_eq!(upload.models.len(), 2);
    assert_eq!(upload.models[0].vertices, write(0, 10, 8, 12, array(0, 12)));
    assert_eq!(upload.models[0].tex_coords, write(0, 10, 8, 8, array(1, 8)));
    assert_eq!(upload.models[0].normals, write(0, 10, 8, 12, array(2, 12)));
    assert_eq!(
        upload.models[0].indices,
        write(0, 0, 36, 4, Binding::ElementArray { region: 0 })
    );
    assert_eq!(upload.models[0].instanced_translations, write(0, 10, 8, 12, array(4, 12)));
    assert_eq!(upload.models[0].instanced_colours, write(0, 10, 8, 12, array(3, 12)));

    assert_eq!(upload.models[1].vertices, write(0, 18, 5, 12, array(0, 12)));
    assert_eq!(upload.models[1].tex_coords, write(0, 18, 4, 8, array(1, 8)));
    assert_eq!(upload.models[1].normals, write(0, 18, 3, 12, array(2, 12)));
    assert_eq!(
        upload.models[1].indices,
        write(0, 36, 12, 4, Binding::ElementArray { region: 0 })
    );
    assert_eq!(upload.models[1].instanced_translations, write(0, 18, 5, 12, array(4, 12)));
    assert_eq!(upload.models[1].instanced_colours, write(0, 18, 5, 12, array(3, 12)));
}

#[test]
fn draw_calls_point_at_the_static_geometry() {
    let (scene, cube_id, sun_id) = scene(3000);
    assert_eq!(cube_id.position(), 0);
    assert_eq!(sun_id.position(), 1);
    assert_eq!(
        scene.draw_call(cube_id),
        Some(DrawCallInfo {
            vertex_offset: 10,
            vertex_count: 8,
            indice_offset: 0,
            indice_count: 36,
            instance_offset: 10,
            instance_count: 8,
        })
    );
    assert_eq!(
        scene.draw_call(sun_id),
        Some(DrawCallInfo {
            vertex_offset: 18,
            vertex_count: 5,
            indice_offset: 144,
            indice_count: 12,
            instance_offset: 18,
            instance_count: 5,
        })
    );
    let mut other = SceneRendererBuilder::new();
    other.add_model(cube());
    other.add_model(cube());
    let stranger = other.add_model(cube());
    assert_eq!(scene.draw_call(stranger), None);
}

#[test]
fn a_scene_needs_room_for_its_static_entries() {
    let models = vec![cube(), sun()];
    assert_eq!(SceneRenderer::new(models.clone(), 22).err(), Some(SceneError::CapacityTooSmall));
    assert_eq!(SceneRenderer::new(models.clone(), 0).err(), Some(SceneError::CapacityTooSmall));
    assert!(SceneRenderer::new(models.clone(), 23).is_ok());
    assert!(SceneRenderer::new(Vec::new(), 10).is_ok());
    assert_eq!(SceneRenderer::new(Vec::new(), 9).err(), Some(SceneError::CapacityTooSmall));
}

#[test]
fn a_scene_must_fit_the_counts_of_a_draw_call() {
    let models = vec![cube(), sun()];
    assert_eq!(SceneRenderer::new(models.clone(), u32::MAX).err(), Some(SceneError::TooLarge));
    assert_eq!(
        SceneRenderer::new(models.clone(), i32::MAX as u32 + 1).err(),
        Some(SceneError::TooLarge)
    );
    let huge = RenderInformation {
        geometry: Model::new(1, 1, 1, i32::MAX as usize).unwrap(),
        command: RenderFunction::Plane,
    };
    assert_eq!(SceneRenderer::new(vec![huge, huge], 3000).err(), Some(SceneError::TooLarge));
    assert_eq!(SceneRenderer::new(vec![huge, cube()], 5).err(), Some(SceneError::TooLarge));
}

#[test]
fn clipping_keeps_what_fits() {
    assert_eq!(clip_instances(10, 3, 12), 7);
    assert_eq!(clip_instances(10, 3, 7), 7);
    assert_eq!(clip_instances(10, 3, 6), 6);
    assert_eq!(clip_instances(10, 10, 1), 0);
    assert_eq!(clip_instances(10, 0, 0), 0);
    assert_eq!(clip_instances(u32::MAX, 0, usize::MAX), u32::MAX);
}

#[test]
fn a_batch_is_stored_behind_the_grid_lines() {
    let (mut scene, cube_id, sun_id) = scene(3000);
    let upload = scene.upload_instance_information(vec![
        UploadInformation {
            model_id: cube_id,
            instance_translations: Some(500),
            instance_colours: Some(500),
        },
        UploadInformation {
            model_id: sun_id,
            instance_translations: None,
            instance_colours: Some(100),
        },
    ]);
    assert_eq!(upload.grid_requested, 2000);
    assert_eq!(upload.grid_uploaded, 2000);
    assert_eq!(upload.grid_colours, write(0, 21, 2000, 12, array(3, 12)));
    assert_eq!(upload.grid_translations, write(0, 21, 2000, 12, array(4, 12)));
    assert_eq!(
        upload.models,
        vec![
            InstanceWrite {
                model_id: cube_id,
                requested: 500,
                uploaded: 500,
                instance_offset: 2021,
                colours: Some(CopyCommand {
                    region: 0,
                    element_offset: 2021,
                    element_count: 500,
                    element_size: 12
                }),
                translations: Some(CopyCommand {
                    region: 0,
                    element_offset: 2021,
                    element_count: 500,
                    element_size: 12
                }),
            },
            InstanceWrite {
                model_id: sun_id,
                requested: 100,
                uploaded: 100,
                instance_offset: 2521,
                colours: Some(CopyCommand {
                    region: 0,
                    element_offset: 2521,
                    element_count: 100,
                    element_size: 12
                }),
                translations: None,
            },
        ]
    );
    assert!(!upload.models[0].clipped());
    assert_eq!(scene.current_instance_upload_index(), 2621);
    assert_eq!(scene.base_number_instances(), 21);
    let cube_call = scene.draw_call(cube_id).unwrap();
    assert_eq!(cube_call.instance_offset, 2021);
    assert_eq!(cube_call.instance_count, 500);
    assert_eq!(cube_call.vertex_offset, 10);
    assert_eq!(cube_call.indice_count, 36);
    let sun_call = scene.draw_call(sun_id).unwrap();
    assert_eq!(sun_call.instance_offset, 2521);
    assert_eq!(sun_call.instance_count, 100);
    assert_eq!(sun_call.indice_offset, 144);
}

#[test]
fn what_does_not_fit_is_dropped() {
    let (mut scene, cube_id, sun_id) = scene(3000);
    let upload = scene.upload_instance_information(vec![
        UploadInformation {
            model_id: cube_id,
            instance_translations: Some(900),
            instance_colours: Some(950),
        },
        UploadInformation {
            model_id: sun_id,
            instance_translations: Some(100),
            instance_colours: Some(40),
        },
        UploadInformation {
            model_id: cube_id,
            instance_translations: Some(5),
            instance_colours: None,
        },
    ]);
    let first = upload.models[0];
    assert_eq!((first.requested, first.uploaded, first.instance_offset), (900, 900, 2021));
    assert_eq!(first.colours.unwrap().element_count, 900);
    assert!(!first.clipped());
    let second = upload.models[1];
    assert_eq!((second.requested, second.uploaded, second.instance_offset), (100, 79, 2921));
    assert_eq!(second.translations.unwrap().element_count, 79);
    assert_eq!(second.colours.unwrap().element_count, 40);
    assert!(second.clipped());
    let third = upload.models[2];
    assert_eq!((third.requested, third.uploaded, third.instance_offset), (5, 0, 3000));
    assert_eq!(third.translations.unwrap().element_count, 0);
    assert!(third.clipped());
    assert_eq!(scene.current_instance_upload_index(), 3000);
    for stored in &upload.models {
        for copy in [stored.colours, stored.translations].into_iter().flatten() {
            assert!(copy.element_offset as usize + copy.element_count <= 3000);
        }
    }
    assert_eq!(scene.draw_call(sun_id).unwrap().instance_count, 79);
    let cube_call = scene.draw_call(cube_id).unwrap();
    assert_eq!((cube_call.instance_offset, cube_call.instance_count), (3000, 0));
}

#[test]
fn grid_lines_are_clipped_too() {
    let mut builder = SceneRendererBuilder::new();
    let cube_id = builder.add_model(cube());
    let (mut scene, _) = builder.build(1016).unwrap();
    let upload = scene.upload_instance_information(vec![UploadInformation {
        model_id: cube_id,
        instance_translations: Some(3),
        instance_colours: Some(3),
    }]);
    assert_eq!(upload.grid_requested, 2000);
    assert_eq!(upload.grid_uploaded, 1000);
    assert_eq!(upload.grid_colours.copy.element_count, 1000);
    assert_eq!(upload.grid_translations.copy.element_offset, 16);
    assert_eq!(upload.models[0].uploaded, 0);
    assert!(upload.models[0].clipped());
}

#[test]
fn records_without_data_change_nothing() {
    let (mut scene, cube_id, sun_id) = scene(3000);
    let before = scene.draw_call(sun_id);
    let upload = scene.upload_instance_information(vec![
        UploadInformation { model_id: sun_id, instance_translations: None, instance_colours: None },
        UploadInformation {
            model_id: cube_id,
            instance_translations: Some(1),
            instance_colours: None,
        },
    ]);
    assert_eq!(
        upload.models[0],
        InstanceWrite {
            model_id: sun_id,
            requested: 0,
            uploaded: 0,
            instance_offset: 2021,
            colours: None,
            translations: None,
        }
    );
    assert_eq!(upload.models[1].instance_offset, 2021);
    assert_eq!(scene.draw_call(sun_id), before);
}

#[test]
fn every_batch_starts_behind_the_static_entries() {
    let (mut scene, cube_id, _) = scene(3000);
    let record = UploadInformation {
        model_id: cube_id,
        instance_translations: Some(10),
        instance_colours: Some(10),
    };
    let first = scene.upload_instance_information(vec![record]);
    let second = scene.upload_instance_information(vec![record]);
    assert_eq!(first.models, second.models);
    assert_eq!(first.grid_colours, second.grid_colours);
    assert_eq!(scene.current_instance_upload_index(), 2031);
}

#[test]
fn a_batch_of_three_models_rotates_each_ring_once() {
    let mut builder = SceneRendererBuilder::new();
    let ids = [builder.add_model(cube()), builder.add_model(sun()), builder.add_model(cube())];
    let (mut scene, _) = builder.build(3000).unwrap();
    let regions = scene.instanced_colours().number_buffers();
    let colours_before = scene.instanced_colours().current_buffer_index();
    let translations_before = scene.instanced_translations().current_buffer_index();
    let upload = scene.upload_instance_information(
        ids.iter()
            .map(|id| UploadInformation {
                model_id: *id,
                instance_translations: Some(7),
                instance_colours: Some(7),
            })
            .collect(),
    );
    assert_eq!(
        scene.instanced_colours().current_buffer_index(),
        (colours_before + 1) % regions
    );
    assert_eq!(
        scene.instanced_translations().current_buffer_index(),
        (translations_before + 1) % regions
    );
    assert_eq!(upload.models.len(), 3);
    for stored in &upload.models {
        assert_eq!(stored.colours.unwrap().region, upload.grid_colours.copy.region);
        assert_eq!(stored.translations.unwrap().region, upload.grid_translations.copy.region);
    }
    assert_eq!(
        upload.models.iter().map(|stored| stored.instance_offset).collect::<Vec<_>>(),
        vec![2029, 2036, 2043]
    );
}

#[test]
fn a_frame_draws_models_then_grid_and_fences_the_instances() {
    let (mut scene, cube_id, sun_id) = scene(3000);
    scene.upload_instance_information(vec![UploadInformation {
        model_id: cube_id,
        instance_translations: Some(4),
        instance_colours: Some(4),
    }]);
    let frame = scene.render();
    assert_eq!(
        frame.sun_marker,
        CopyCommand { region: 0, element_offset: 0, element_count: 2, element_size: 12 }
    );
    assert_eq!(
        frame.models,
        vec![
            ModelDraw {
                command: RenderFunction::Cube,
                draw_call: scene.draw_call(cube_id).unwrap()
            },
            ModelDraw { command: RenderFunction::Sun, draw_call: scene.draw_call(sun_id).unwrap() },
        ]
    );
    assert_eq!(
        frame.grid,
        vec![
            GridDraw { first_vertex: 2, vertex_count: 2, instance_count: 500, base_instance: 21 },
            GridDraw { first_vertex: 4, vertex_count: 2, instance_count: 500, base_instance: 521 },
            GridDraw { first_vertex: 6, vertex_count: 2, instance_count: 500, base_instance: 1021 },
            GridDraw { first_vertex: 8, vertex_count: 2, instance_count: 500, base_instance: 1521 },
        ]
    );
    assert_eq!((frame.translations_fence, frame.colours_fence), (0, 0));
    assert_eq!(scene.instanced_translations().fence_state(0), Some(FenceState::Pending));
    assert_eq!(scene.instanced_colours().fence_state(0), Some(FenceState::Pending));
    assert_eq!(scene.vertices().fence_state(0), Some(FenceState::Satisfied));

    scene.upload_instance_information(Vec::new());
    assert_eq!(scene.instanced_translations().fence_state(0), Some(FenceState::Satisfied));
    assert_eq!(scene.instanced_colours().fence_state(0), Some(FenceState::Satisfied));
}

#[test]
fn the_scene_of_the_program_starts_with_the_first_cloud() {
    let plane = Model::new(4, 4, 4, 6).unwrap();
    let (scene, cube_id, geometry, instances) = SceneRenderer::setup_scene_renderer(
        cube().geometry,
        sun().geometry,
        Model::new(9, 0, 9, 24).unwrap(),
        plane,
        1234,
    )
    .unwrap();
    assert_eq!(cube_id.position(), 0);
    assert_eq!(scene.max_number_instances(), MAX_SCENE_INSTANCES);
    assert_eq!(geometry.models.len(), 4);
    assert_eq!(geometry.models[3].vertices.copy.element_offset, 10 + 8 + 5 + 9);
    assert_eq!(scene.base_number_instances(), 8 + 26);
    assert_eq!(instances.models.len(), 1);
    assert_eq!(instances.models[0].uploaded, 1234);
    assert_eq!(instances.models[0].instance_offset, 34 + 2000);
    assert_eq!(scene.draw_call(cube_id).unwrap().instance_count, 1234);
    let frame_models: Vec<_> = {
        let mut scene = scene;
        scene.render().models.iter().map(|draw| draw.command).collect()
    };
    assert_eq!(
        frame_models,
        vec![
            RenderFunction::Cube,
            RenderFunction::Sun,
            RenderFunction::SunArrow,
            RenderFunction::Plane
        ]
    );
}

#[test]
fn the_first_cloud_is_clipped_to_the_scene() {
    let small = Model::new(1, 1, 1, 3).unwrap();
    let (scene, cube_id, _, instances) =
        SceneRenderer::setup_scene_renderer(small, small, small, small, 60_000).unwrap();
    assert_eq!(instances.models[0].requested, 60_000);
    assert_eq!(instances.models[0].uploaded, 50_000 - 12 - 2000);
    assert!(instances.models[0].clipped());
    assert_eq!(scene.current_instance_upload_index(), 50_000);
    assert_eq!(scene.draw_call(cube_id).unwrap().instance_count, 50_000 - 12 - 2000);
}

#[test]
fn the_scene_is_drawn_by_a_vertex_and_a_fragment_shader() {
    let program = create_shader_program();
    let shaders = program.shaders();
    assert_eq!(shaders.len(), 2);
    assert_eq!(shaders[0].shader_type, ShaderType::Vertex);
    assert_eq!(shaders[0].shader_location, "sceneVertexShader.glsl");
    assert_eq!(shaders[1].shader_type, ShaderType::Fragment);
    assert_eq!(shaders[1].shader_location, "sceneFragmentShader.glsl");
}

fn some_model() -> ModelId {
    SceneRendererBuilder::new().add_model(cube())
}

#[test]
fn twelve_asked_for_behind_three_of_ten_places_store_seven() {
    let m = some_model();
    let stored = store_records(
        10,
        3,
        &vec![UploadInformation {
            model_id: m,
            instance_translations: Some(12),
            instance_colours: Some(12),
        }],
        1,
        2,
    );
    assert_eq!(
        stored,
        vec![InstanceWrite {
            model_id: m,
            requested: 12,
            uploaded: 7,
            instance_offset: 3,
            colours: Some(CopyCommand {
                region: 1,
                element_offset: 3,
                element_count: 7,
                element_size: 12
            }),
            translations: Some(CopyCommand {
                region: 2,
                element_offset: 3,
                element_count: 7,
                element_size: 12
            }),
        }]
    );
    assert!(stored[0].clipped());
    for copy in [stored[0].colours.unwrap(), stored[0].translations.unwrap()] {
        assert_eq!(copy.element_offset as usize * copy.element_size, 36);
        assert_eq!((copy.element_offset as usize + copy.element_count) * copy.element_size, 120);
        assert!(copy.fits_within(120));
    }
}

#[test]
fn a_record_behind_a_full_buffer_stores_nothing() {
    let m = some_model();
    let stored = store_records(
        10,
        3,
        &vec![
            UploadInformation {
                model_id: m,
                instance_translations: Some(12),
                instance_colours: None,
            },
            UploadInformation {
                model_id: m,
                instance_translations: Some(5),
                instance_colours: None,
            },
        ],
        0,
        0,
    );
    assert_eq!(
        stored.iter().map(|s| (s.requested, s.uploaded, s.instance_offset)).collect::<Vec<_>>(),
        vec![(12, 7, 3), (5, 0, 10)]
    );
    assert!(stored[0].clipped() && stored[1].clipped());
    assert_eq!(stored[1].translations.unwrap().element_count, 0);
    assert_eq!(stored[1].colours, None);
    for copy in stored.iter().filter_map(|s| s.translations) {
        assert!(copy.fits_within(120));
    }
}

#[test]
fn records_that_fit_are_stored_whole() {
    let m = some_model();
    let stored = store_records(
        10,
        0,
        &vec![
            UploadInformation { model_id: m, instance_translations: Some(4), instance_colours: Some(2) },
            UploadInformation { model_id: m, instance_translations: None, instance_colours: None },
            UploadInformation { model_id: m, instance_translations: None, instance_colours: Some(6) },
        ],
        0,
        0,
    );
    assert_eq!(
        stored.iter().map(|s| (s.requested, s.uploaded, s.instance_offset)).collect::<Vec<_>>(),
        vec![(4, 4, 0), (0, 0, 4), (6, 6, 4)]
    );
    assert!(stored.iter().all(|s| !s.clipped()));
    assert_eq!(stored[0].colours.unwrap().element_count, 2);
    assert!(store_records(10, 10, &Vec::new(), 0, 0).is_empty());
}
