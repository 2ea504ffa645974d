//! Tests of the vertex-layout descriptions the renderer consumes.

use mdl_loader::color_vertex_layout;
use mdl_loader::frame_vertex_layout;
use mdl_loader::ColorVertex;
use mdl_loader::FrameVertex;
use mdl_loader::Vertex;
use mdl_loader::VertexFormat;

#[test]
fn frame_vertex_layout_describes_position_then_normal() {
    let layout = frame_vertex_layout();
    assert_eq!(layout.array_stride, 24);
    assert_eq!(layout.attributes.len(), 2);
    assert_eq!(layout.attributes[0].offset, 0);
    assert_eq!(layout.attributes[0].shader_location, 0);
    assert_eq!(layout.attributes[0].format, VertexFormat::Float32x3);
    assert_eq!(layout.attributes[1].offset, 12);
    assert_eq!(layout.attributes[1].shader_location, 1);
    assert_eq!(layout.attributes[1].format, VertexFormat::Float32x3);
}

#[test]
fn color_vertex_layout_describes_one_color() {
    let layout = color_vertex_layout();
    assert_eq!(layout.array_stride, 4);
    assert_eq!(layout.attributes.len(), 1);
    assert_eq!(layout.attributes[0].offset, 0);
    assert_eq!(layout.attributes[0].shader_location, 0);
    assert_eq!(layout.attributes[0].format, VertexFormat::Unorm8x4);
}

#[test]
fn trait_descriptions_match_the_free_functions() {
    assert_eq!(FrameVertex::desc(), frame_vertex_layout());
    assert_eq!(ColorVertex::desc(), color_vertex_layout());
}
