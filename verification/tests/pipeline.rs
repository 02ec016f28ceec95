use qbezier::pipeline::{Compute, Pipeline, PipelinePass, Render, RenderNoVertex};

#[test]
fn a_pipeline_keeps_its_slot_counts() {
    let p = Pipeline::new("pipeline", 2, 1);
    assert_eq!(p.pipeline, "pipeline");
    assert_eq!(p.num_bind_groups(), 2);
    assert_eq!(p.num_vertex_buffers(), 1);
}

#[test]
fn a_new_pass_binds_nothing() {
    let p = Pipeline::new(7u8, 2, 1);
    let pass: PipelinePass<u8, &str, u32> = p.begin_pass("Stencil Pass".to_string());
    assert_eq!(pass.label(), "Stencil Pass");
    assert_eq!(*pass.pipeline(), 7);
    assert_eq!(pass.bind_group_count(), 0);
    assert_eq!(pass.vertex_buffer_count(), 0);
    assert_eq!(pass.index_buffer(), None);
    assert_eq!(pass.stencil_reference(), None);
    assert!(!pass.is_complete());
}

#[test]
fn what_is_added_lands_in_the_next_slot() {
    let p = Pipeline::new((), 2, 1);
    let (camera, object) = ("camera", "object");
    let (vertices, indices) = (11u32, 22u32);
    let pass = p
        .begin_pass("Render Pass".to_string())
        .add_bind_group(&camera)
        .add_bind_group(&object)
        .add_vertex_buffer(&vertices)
        .add_index_buffer(&indices)
        .set_stencil_reference(1);
    assert_eq!(pass.bind_group_count(), 2);
    assert_eq!(*pass.bind_group(0), "camera");
    assert_eq!(*pass.bind_group(1), "object");
    assert_eq!(pass.vertex_buffer_count(), 1);
    assert_eq!(*pass.vertex_buffer(0), 11);
    assert_eq!(pass.index_buffer(), Some(&22));
    assert_eq!(pass.stencil_reference(), Some(1));
    assert!(pass.is_complete());
}

#[test]
fn a_pass_is_complete_when_every_slot_is_filled_and_no_more() {
    let p = Pipeline::new((), 1, 0);
    let g = 1u8;
    let pass: PipelinePass<(), u8, u8> = p.begin_pass("Compute Pass".to_string());
    assert!(!pass.is_complete());
    let pass = pass.add_bind_group(&g);
    assert!(pass.is_complete());
    let pass = pass.add_bind_group(&g);
    assert!(!pass.is_complete());
}

#[test]
fn a_later_index_buffer_replaces_an_earlier_one() {
    let p = Pipeline::new((), 0, 0);
    let (a, b) = (1u8, 2u8);
    let pass: PipelinePass<(), u8, u8> =
        p.begin_pass("pass".to_string()).add_index_buffer(&a).add_index_buffer(&b);
    assert_eq!(pass.index_buffer(), Some(&2));
}

#[test]
fn the_markers_are_plain_values() {
    let _ = (RenderNoVertex, Render, Compute);
}
