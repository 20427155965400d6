use voxelstream::chunk_coord;
use voxelstream::get_elapsed_time;
use voxelstream::BlockType;
use voxelstream::KeyState;
use voxelstream::TexCell;
use voxelstream::Timer;
use voxelstream::Type;
use voxelstream::UvCoords;

#[test]
fn chunk_coord_floor_divides() {
    assert_eq!(chunk_coord(0), 0);
    assert_eq!(chunk_coord(15), 0);
    assert_eq!(chunk_coord(16), 1);
    assert_eq!(chunk_coord(31), 1);
    assert_eq!(chunk_coord(-1), -1);
    assert_eq!(chunk_coord(-16), -1);
    assert_eq!(chunk_coord(-17), -2);
    assert_eq!(chunk_coord(i32::MAX), 134217727);
    assert_eq!(chunk_coord(i32::MIN), -134217728);
}

#[test]
fn timer_starts_with_no_frames() {
    let t = Timer::new();
    assert_eq!(t.current_frames, 0);
    assert_eq!(t.fps, 0);
}

#[test]
fn tick_measures_the_frame_gap() {
    let mut t = Timer { last_time: 0, frame_leap: 0, delta: 100, current_frames: 5, fps: 0 };
    t.tick_at(116);
    assert_eq!(t.delta, 116);
    assert_eq!(t.frame_leap, 16);
    assert_eq!(t.current_frames, 6);
    assert_eq!(t.fps, 0);
    assert_eq!(t.last_time, 0);
}

#[test]
fn tick_publishes_the_rate_once_a_second() {
    let mut t = Timer { last_time: 0, frame_leap: 0, delta: 100, current_frames: 41, fps: 7 };
    t.tick_at(1200);
    assert_eq!(t.fps, 41);
    assert_eq!(t.current_frames, 1);
    assert_eq!(t.last_time, 1200);
    assert_eq!(t.frame_leap, 1100);
}

#[test]
fn tick_tolerates_a_backwards_clock() {
    let mut t = Timer { last_time: 1200, frame_leap: 0, delta: 1200, current_frames: 3, fps: 9 };
    t.tick_at(50);
    assert_eq!(t.frame_leap, 0);
    assert_eq!(t.delta, 50);
    assert_eq!(t.current_frames, 4);
    assert_eq!(t.fps, 9);
}

#[test]
fn frame_leap_truncates_to_32_bits() {
    let t = Timer {
        last_time: 0,
        frame_leap: 0x1_0000_0010,
        delta: 0,
        current_frames: 0,
        fps: 0,
    };
    assert_eq!(t.frame_leap(), 16);
}

#[test]
fn elapsed_time_reads_the_clock() {
    let a = get_elapsed_time();
    let b = get_elapsed_time();
    assert!(a > 0);
    assert!(b >= a);
}

#[test]
fn key_states_follow_press_release_cycles() {
    assert_eq!(KeyState::Inactive.next(true), KeyState::Active);
    assert_eq!(KeyState::Active.next(true), KeyState::Active);
    assert_eq!(KeyState::Active.next(false), KeyState::Clicked);
    assert_eq!(KeyState::Clicked.next(false), KeyState::Inactive);
    assert_eq!(KeyState::Inactive.next(false), KeyState::Inactive);
    assert_eq!(KeyState::Clicked.next(true), KeyState::Active);
}

#[test]
fn shader_kinds_name_their_files() {
    assert_eq!(Type::Block.as_str(), "block");
    assert_eq!(Type::Text.as_str(), "text");
    assert_eq!(Type::CubeMap.as_str(), "cube_map");
    assert_eq!(Type::Torch.as_str(), "torch");
    assert_eq!(Type::Deferred.as_str(), "deferred");
    assert_eq!(Type::ShadowMap.as_str(), "shadow_map");
}

#[test]
fn tex_coords_span_the_scaled_atlas_cell() {
    let uv = BlockType::tex_coords(TexCell { x: 3, y: 7 }, 1000, 1000);
    assert_eq!((uv.a.u, uv.a.v), (48000, 128000));
    assert_eq!((uv.b.u, uv.b.v), (64000, 128000));
    assert_eq!((uv.c.u, uv.c.v), (64000, 112000));
    assert_eq!((uv.d.u, uv.d.v), (48000, 112000));

    let uv = BlockType::tex_coords(TexCell { x: 0, y: 0 }, 300, 600);
    assert_eq!((uv.a.u, uv.a.v), (0, 9600));
    assert_eq!((uv.b.u, uv.b.v), (4800, 9600));
    assert_eq!((uv.c.u, uv.c.v), (4800, 0));
    assert_eq!((uv.d.u, uv.d.v), (0, 0));
}

#[test]
fn default_uv_coords_are_zero() {
    let uv = UvCoords::default();
    assert_eq!((uv.a.u, uv.a.v), (0, 0));
    assert_eq!((uv.b.u, uv.b.v), (0, 0));
    assert_eq!((uv.c.u, uv.c.v), (0, 0));
    assert_eq!((uv.d.u, uv.d.v), (0, 0));
}

#[test]
fn block_type_indices_are_distinct() {
    let all = [
        BlockType::Air,
        BlockType::Dirt,
        BlockType::Grass,
        BlockType::DiamondOre,
        BlockType::RedstoneOre,
        BlockType::GoldOre,
        BlockType::IronOre,
        BlockType::CoalOre,
        BlockType::Pumpkin,
        BlockType::JackOLantern,
        BlockType::Torch,
        BlockType::Bedrock,
        BlockType::Stone,
        BlockType::Gravel,
        BlockType::Granite,
        BlockType::Diorite,
    ];
    for (i, t) in all.iter().enumerate() {
        assert_eq!(t.index(), i);
    }
}
