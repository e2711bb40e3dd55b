use marauder_vis::mgl::MeshRenderMode;
use marauder_vis::tile_picker::{background_color, color_to_tile, pick_colors, tile_color, TilePicker};
use marauder_vis::types::{MapPos, ScreenPos, Size2};
use marauder_vis::unit_type_visual_info::{UnitTypeVisualInfo, UnitTypeVisualInfoManager};
use marauder_vis::types::{MeshId, UnitTypeId};

#[test]
fn tile_colour_round_trip() {
    let size = Size2 { w: 3, h: 3 };
    for y in 0..3 {
        for x in 0..3 {
            let p = MapPos { x, y };
            assert_eq!(color_to_tile(tile_color(p), size), Some(p));
        }
    }
    assert_eq!(tile_color(MapPos { x: 2, y: 1 }), (2, 1, 1, 255));
}

#[test]
fn background_picks_nothing() {
    assert_eq!(color_to_tile(background_color(), Size2 { w: 3, h: 3 }), None);
}

#[test]
fn off_map_colour_picks_nothing() {
    assert_eq!(color_to_tile((5, 0, 1, 255), Size2 { w: 3, h: 3 }), None);
}

#[test]
fn resize_flips_rows_against_new_height() {
    let mut t = TilePicker::new(Size2 { w: 640, h: 480 }, Size2 { w: 3, h: 3 });
    assert_eq!(t.pixel_under(ScreenPos { x: 10, y: 100 }), ScreenPos { x: 10, y: 380 });
    t.set_win_size(Size2 { w: 800, h: 600 });
    assert_eq!(t.win_size, Size2 { w: 800, h: 600 });
    assert_eq!(t.pixel_under(ScreenPos { x: 10, y: 100 }), ScreenPos { x: 10, y: 500 });
    assert_eq!(t.pick_tile((1, 2, 1, 255)), Some(MapPos { x: 1, y: 2 }));
}

#[test]
fn pick_colours_follow_layout() {
    let c = pick_colors(Size2 { w: 2, h: 3 });
    assert_eq!(c.len(), 6);
    assert_eq!(c[0], (0, 0, 1, 255));
    assert_eq!(c[1], (1, 0, 1, 255));
    assert_eq!(c[5], (1, 2, 1, 255));
}

#[test]
fn render_modes_map_to_gl() {
    assert_eq!(MeshRenderMode::Triangles.to_gl_type(), 4);
    assert_eq!(MeshRenderMode::Lines.to_gl_type(), 1);
}

#[test]
fn visual_info_by_type_id() {
    let mut m = UnitTypeVisualInfoManager::new();
    m.add_info(UnitTypeVisualInfo { mesh_id: MeshId { id: 5 }, move_speed: 10 });
    m.add_info(UnitTypeVisualInfo { mesh_id: MeshId { id: 6 }, move_speed: 20 });
    assert_eq!(m.len(), 2);
    assert_eq!(m.get(UnitTypeId { id: 1 }).mesh_id, MeshId { id: 6 });
    assert_eq!(m.get(UnitTypeId { id: 0 }).move_speed, 10);
}
