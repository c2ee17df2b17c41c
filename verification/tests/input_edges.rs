use asteroids::game::Config;
use asteroids::input::InputIndex;
use asteroids::input::Inputs;

#[test]
fn press_and_release_within_one_tick() {
    let config = Config::new();
    let mut inputs = Inputs::new();
    inputs.key_down(90, &config);
    assert!(inputs.is_down(InputIndex::Shoot));
    inputs.key_up(90, &config);
    // released before the tick ends, yet observably pressed this frame
    assert!(inputs.been_pressed(InputIndex::Shoot));
    assert!(!inputs.is_down(InputIndex::Shoot));
    // the trailing per-tick transition retires the edge
    inputs.tick();
    assert!(!inputs.been_pressed(InputIndex::Shoot));
    assert!(!inputs.is_down(InputIndex::Shoot));
}

#[test]
fn held_key_stays_down_across_ticks() {
    let config = Config::new();
    let mut inputs = Inputs::new();
    inputs.key_down(38, &config);
    inputs.tick();
    inputs.tick();
    assert!(inputs.is_down(InputIndex::Forward));
    inputs.key_up(38, &config);
    assert!(!inputs.is_down(InputIndex::Forward));
    assert!(inputs.been_pressed(InputIndex::Forward));
    inputs.tick();
    assert!(!inputs.been_pressed(InputIndex::Forward));
}

#[test]
fn unmapped_codes_are_ignored() {
    let config = Config::new();
    let mut inputs = Inputs::new();
    inputs.key_down(999, &config);
    assert!(!inputs.been_pressed(InputIndex::Shoot));
    assert!(!inputs.been_pressed(InputIndex::Forward));
    assert!(!inputs.been_pressed(InputIndex::Backward));
    assert!(!inputs.been_pressed(InputIndex::Left));
    assert!(!inputs.been_pressed(InputIndex::Right));
}

#[test]
fn default_bindings_lookup() {
    let config = Config::new();
    assert!(matches!(config.lookup_input_key(90), Some(InputIndex::Shoot)));
    assert!(matches!(config.lookup_input_key(32), Some(InputIndex::Shoot)));
    assert!(matches!(config.lookup_input_key(38), Some(InputIndex::Forward)));
    assert!(matches!(config.lookup_input_key(40), Some(InputIndex::Backward)));
    assert!(matches!(config.lookup_input_key(37), Some(InputIndex::Left)));
    assert!(matches!(config.lookup_input_key(39), Some(InputIndex::Right)));
    assert!(config.lookup_input_key(65).is_none());
}

#[test]
fn first_matching_binding_wins() {
    let mut config = Config::new();
    config.key_binds = vec![(5, InputIndex::Forward), (5, InputIndex::Shoot)];
    assert!(matches!(config.lookup_input_key(5), Some(InputIndex::Forward)));
    let mut inputs = Inputs::new();
    inputs.key_down(5, &config);
    assert!(inputs.is_down(InputIndex::Forward));
    assert!(!inputs.is_down(InputIndex::Shoot));
}

#[test]
fn both_codes_map_to_shoot_independently() {
    let config = Config::new();
    let mut inputs = Inputs::new();
    inputs.key_down(32, &config);
    assert!(inputs.is_down(InputIndex::Shoot));
    assert!(!inputs.is_down(InputIndex::Forward));
}
