use car_motion::player::{single_player, PlayerError};

#[test]
fn one_match_is_the_player() {
    assert_eq!(single_player(vec![7_u32]), Ok(7));
    assert_eq!(single_player(vec!["car"]), Ok("car"));
}

#[test]
fn no_match_is_an_error() {
    let nothing: Vec<u32> = Vec::new();
    assert_eq!(single_player(nothing), Err(PlayerError::NoPlayer));
}

#[test]
fn several_matches_are_an_error() {
    assert_eq!(single_player(vec![1_u32, 2]), Err(PlayerError::MultiplePlayers));
    assert_eq!(single_player(vec![4_u32, 4, 4, 4]), Err(PlayerError::MultiplePlayers));
}

#[test]
fn errors_describe_themselves() {
    assert_eq!(PlayerError::NoPlayer.message(), "no player entity");
    assert_eq!(PlayerError::MultiplePlayers.message(), "multiple player entities");
}
