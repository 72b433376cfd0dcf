use bevy::time::TimerMode;
use entity_systems::common::animation::{animation_finished, tick_system_animation, Progress};
use entity_systems::playing_state::{
    fade_away_animation, find_tile_sprite, setup_tiles, show_up_animation, start_fade_away,
    start_show_up, LandTile, LandTiles, Removal, RemoveTile, TileSprite, FALL_ANIMATION_MILLIS,
    RESTORE_ANIMATION_MILLIS, TILES_HEIGHT, TILES_WIDTH, TILE_SIZE,
};
use std::time::Duration;

fn alive_count(tiles: &LandTiles) -> usize {
    let mut count = 0;
    for x in 0..4 {
        for y in 0..4 {
            if tiles.on_ground((x, y)) {
                count += 1;
            }
        }
    }
    count
}

#[test]
fn the_grid_is_four_by_four_tiles_of_forty_pixels() {
    assert_eq!(TILES_WIDTH, 4);
    assert_eq!(TILES_HEIGHT, 4);
    assert_eq!(TILE_SIZE, 40);
    assert_eq!(FALL_ANIMATION_MILLIS, 300);
    assert_eq!(RESTORE_ANIMATION_MILLIS, 150);
}

#[test]
fn a_new_grid_is_all_alive() {
    let tiles = LandTiles::new();
    assert_eq!(alive_count(&tiles), 16);
}

#[test]
fn the_default_grid_is_all_alive() {
    let tiles = LandTiles::default();
    assert_eq!(alive_count(&tiles), 16);
    assert!(matches!(LandTile::default(), LandTile::Alive));
}

#[test]
fn array_index_accepts_the_grid_only() {
    assert_eq!(LandTiles::array_index((0, 0)), Some((0, 0)));
    assert_eq!(LandTiles::array_index((3, 3)), Some((3, 3)));
    assert_eq!(LandTiles::array_index((1, 2)), Some((1, 2)));
    assert_eq!(LandTiles::array_index((-1, 0)), None);
    assert_eq!(LandTiles::array_index((0, -1)), None);
    assert_eq!(LandTiles::array_index((4, 0)), None);
    assert_eq!(LandTiles::array_index((0, 4)), None);
    assert_eq!(LandTiles::array_index((i32::MIN, i32::MAX)), None);
}

#[test]
fn array_to_world_gives_the_middle_of_the_tile() {
    assert_eq!(LandTiles::array_to_world((0, 0)), (-60, -60));
    assert_eq!(LandTiles::array_to_world((1, 2)), (-20, 20));
    assert_eq!(LandTiles::array_to_world((3, 3)), (60, 60));
    assert_eq!(LandTiles::array_to_world((2, 0)), (20, -60));
    assert_eq!(
        LandTiles::array_to_world((i32::MAX, i32::MIN)),
        ((i32::MAX as i64 - 2) * 40 + 20, (i32::MIN as i64 - 2) * 40 + 20)
    );
}

#[test]
fn off_the_grid_is_not_ground() {
    let tiles = LandTiles::new();
    assert!(!tiles.on_ground((-1, 2)));
    assert!(!tiles.on_ground((4, 2)));
    assert!(!tiles.on_ground((2, 4)));
    assert!(tiles.on_ground((3, 0)));
}

#[test]
fn removing_destroys_a_living_tile_and_prolongs_a_destroyed_one() {
    let mut tiles = LandTiles::new();
    let request = RemoveTile((1, 2), Duration::from_millis(2000));
    assert_eq!(tiles.remove_tile(&request), Removal::Destroyed);
    assert!(!tiles.on_ground((1, 2)));
    assert_eq!(alive_count(&tiles), 15);
    assert!(tiles.tick_and_restore_tiles(Duration::from_millis(1500)).is_empty());
    // half a second was left; the new request starts over with one second
    let again = RemoveTile((1, 2), Duration::from_millis(1000));
    assert_eq!(tiles.remove_tile(&again), Removal::Prolonged);
    assert!(tiles.tick_and_restore_tiles(Duration::from_millis(999)).is_empty());
    assert!(!tiles.on_ground((1, 2)));
    assert_eq!(tiles.tick_and_restore_tiles(Duration::from_millis(1)), vec![(1, 2)]);
    assert!(tiles.on_ground((1, 2)));
}

#[test]
fn removing_off_the_grid_changes_nothing() {
    let mut tiles = LandTiles::new();
    let request = RemoveTile((4, 0), Duration::from_millis(2000));
    assert_eq!(tiles.remove_tile(&request), Removal::Missed);
    assert_eq!(alive_count(&tiles), 16);
}

#[test]
fn a_request_off_the_grid_ends_the_frame() {
    let mut tiles = LandTiles::new();
    let second = Duration::from_secs(1);
    let requests = vec![
        RemoveTile((0, 0), second),
        RemoveTile((2, 1), second),
        RemoveTile((0, 0), second),
        RemoveTile((7, 7), second),
        RemoveTile((3, 3), second),
    ];
    assert_eq!(tiles.remove_tiles(&requests), vec![(0, 0), (2, 1)]);
    assert!(!tiles.on_ground((0, 0)));
    assert!(!tiles.on_ground((2, 1)));
    assert!(tiles.on_ground((3, 3)));
    assert_eq!(alive_count(&tiles), 14);
}

#[test]
fn no_requests_change_nothing() {
    let mut tiles = LandTiles::new();
    assert!(tiles.remove_tiles(&Vec::new()).is_empty());
    assert_eq!(alive_count(&tiles), 16);
}

#[test]
fn tiles_come_back_in_scan_order() {
    let mut tiles = LandTiles::new();
    let requests = vec![
        RemoveTile((3, 1), Duration::from_millis(100)),
        RemoveTile((0, 2), Duration::from_millis(100)),
        RemoveTile((3, 0), Duration::from_millis(100)),
        RemoveTile((1, 1), Duration::from_millis(500)),
    ];
    assert_eq!(tiles.remove_tiles(&requests), vec![(3, 1), (0, 2), (3, 0), (1, 1)]);
    assert_eq!(
        tiles.tick_and_restore_tiles(Duration::from_millis(100)),
        vec![(0, 2), (3, 0), (3, 1)]
    );
    assert_eq!(alive_count(&tiles), 15);
    assert!(tiles.tick_and_restore_tiles(Duration::from_millis(100)).is_empty());
}

#[test]
fn reset_brings_every_tile_back() {
    let mut tiles = LandTiles::new();
    tiles.remove_tile(&RemoveTile((0, 0), Duration::from_secs(5)));
    tiles.remove_tile(&RemoveTile((3, 2), Duration::from_secs(5)));
    assert_eq!(alive_count(&tiles), 14);
    tiles.reset();
    assert_eq!(alive_count(&tiles), 16);
    assert!(tiles.tick_and_restore_tiles(Duration::from_secs(10)).is_empty());
}

#[test]
fn a_tile_ticks_on_its_own() {
    let mut tile = LandTile::Alive;
    assert!(!tile.tick(Duration::from_secs(1)));
    assert_eq!(tile.remove(Duration::from_millis(10)), Removal::Destroyed);
    match &tile {
        LandTile::Destroyed { until_alive } => {
            assert_eq!(until_alive.duration(), Duration::from_millis(10));
            assert_eq!(until_alive.mode(), TimerMode::Once);
        }
        LandTile::Alive => panic!("the tile was destroyed"),
    }
    assert!(!tile.tick(Duration::from_millis(9)));
    assert!(tile.tick(Duration::from_millis(1)));
    assert!(matches!(tile, LandTile::Alive));
}

#[test]
fn a_destroyed_tile_is_restored_after_its_duration_with_the_animations_swapped() {
    let mut tiles = LandTiles::new();
    let mut fade = fade_away_animation();
    let mut show = show_up_animation();

    // the tile at (2, 1) is destroyed for 2000 ms
    let faded = tiles.remove_tiles(&vec![RemoveTile((2, 1), Duration::from_millis(2000))]);
    assert_eq!(faded, vec![(2, 1)]);
    start_fade_away(&mut fade, &mut show);
    assert!(!fade.is_disabled());
    assert!(show.is_disabled());

    // 1990 ms in frames of 10 ms: destroyed all along
    let mut flips = 0;
    for _ in 0..199 {
        let shown = tiles.tick_and_restore_tiles(Duration::from_millis(10));
        flips += shown.len();
        assert!(!tiles.on_ground((2, 1)));
        fade.frame(Duration::from_millis(10));
        show.frame(Duration::from_millis(10));
    }
    assert_eq!(flips, 0);

    // the frame that completes 2000 ms brings it back
    let shown = tiles.tick_and_restore_tiles(Duration::from_millis(10));
    assert_eq!(shown, vec![(2, 1)]);
    assert!(tiles.on_ground((2, 1)));
    start_show_up(&mut fade, &mut show);
    assert!(fade.is_disabled());
    assert!(!show.is_disabled());
    assert_eq!(
        tick_system_animation(&show),
        Some(Progress { elapsed: 0, duration: 150_000_000 })
    );
    assert_eq!(tick_system_animation(&fade), None);
    assert!(!animation_finished(&fade));

    // and it stays: no second flip
    for _ in 0..300 {
        assert!(tiles.tick_and_restore_tiles(Duration::from_millis(10)).is_empty());
        assert!(tiles.on_ground((2, 1)));
    }
}

#[test]
fn the_tile_animations_wait_disabled() {
    let fade = fade_away_animation();
    let show = show_up_animation();
    assert!(fade.is_disabled());
    assert!(show.is_disabled());
    assert_eq!(fade.timer().duration(), Duration::from_millis(300));
    assert_eq!(show.timer().duration(), Duration::from_millis(150));
    assert_eq!(fade.timer().mode(), TimerMode::Once);
    assert_eq!(show.timer().mode(), TimerMode::Once);
    assert_eq!(fade.timer().elapsed(), Duration::ZERO);
}

#[test]
fn setup_makes_a_sprite_for_each_tile() {
    let sprites = setup_tiles();
    assert_eq!(sprites.len(), 16);
    for (k, setup) in sprites.iter().enumerate() {
        assert_eq!(setup.sprite, TileSprite { x: k / 4, y: k % 4 });
        assert_eq!(
            setup.position,
            ((k / 4) as i64 * 40 - 60, (k % 4) as i64 * 40 - 60)
        );
        assert!(setup.fade_away.is_disabled());
        assert!(setup.show_up.is_disabled());
        assert_eq!(setup.fade_away.timer().duration(), Duration::from_millis(300));
        assert_eq!(setup.show_up.timer().duration(), Duration::from_millis(150));
    }
    assert_eq!(sprites[6].sprite, TileSprite { x: 1, y: 2 });
    assert_eq!(sprites[6].position, (-20, 20));
}

#[test]
fn find_tile_sprite_finds_the_first() {
    let sprites = vec![
        TileSprite { x: 0, y: 1 },
        TileSprite { x: 1, y: 0 },
        TileSprite { x: 2, y: 2 },
        TileSprite { x: 1, y: 0 },
    ];
    assert_eq!(find_tile_sprite(&sprites, 1, 0), Some(1));
    assert_eq!(find_tile_sprite(&sprites, 2, 2), Some(2));
    assert_eq!(find_tile_sprite(&sprites, 0, 0), None);
    assert_eq!(find_tile_sprite(&Vec::new(), 0, 0), None);
}
