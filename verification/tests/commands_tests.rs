use clustered_shading::codec::u32_from_le_bytes;
use clustered_shading::commands::ComputeCommand;
use clustered_shading::commands::DrawCommand;
use clustered_shading::commands::initial_compute_commands;
use clustered_shading::commands::initial_draw_command;

#[test]
fn draw_command_layout_is_five_le_words() {
    let c = DrawCommand {
        count: 36,
        prim_count: 0x01020304,
        first_index: 1,
        base_vertex: 0,
        base_instance: 0xFFFFFFFF,
    };
    let bytes = c.value_as_bytes();
    assert_eq!(bytes.len(), 20);
    assert_eq!(&bytes[0..4], &[36, 0, 0, 0]);
    assert_eq!(&bytes[4..8], &[4, 3, 2, 1]);
    assert_eq!(&bytes[8..12], &[1, 0, 0, 0]);
    assert_eq!(&bytes[12..16], &[0, 0, 0, 0]);
    assert_eq!(&bytes[16..20], &[255, 255, 255, 255]);
}

#[test]
fn compute_command_layout_is_three_le_words() {
    let c = ComputeCommand { work_group_x: 7, work_group_y: 1, work_group_z: 0x00010000 };
    let bytes = c.value_as_bytes();
    assert_eq!(bytes, vec![7, 0, 0, 0, 1, 0, 0, 0, 0, 0, 1, 0]);
}

#[test]
fn word_round_trips_through_its_bytes() {
    for &x in [0u32, 1, 36, 0x12345678, u32::MAX].iter() {
        let c = ComputeCommand { work_group_x: x, work_group_y: 0, work_group_z: 0 };
        let bytes = c.value_as_bytes();
        assert_eq!(u32_from_le_bytes(&bytes, 0), x);
    }
}

#[test]
fn initial_draw_command_is_an_empty_cube_draw() {
    let c = initial_draw_command();
    assert_eq!(
        c,
        DrawCommand { count: 36, prim_count: 0, first_index: 0, base_vertex: 0, base_instance: 0 }
    );
}

#[test]
fn initial_compute_commands_dispatch_nothing_yet() {
    let cs = initial_compute_commands();
    assert_eq!(cs.len(), 3);
    for c in cs.iter() {
        assert_eq!(*c, ComputeCommand { work_group_x: 0, work_group_y: 1, work_group_z: 1 });
    }
}
