use asteroids::components::{Score, Scoreboard};
use asteroids::geometry::{Transform, Vec3};
use asteroids::scoreboard::score_text;

#[test]
fn scores_are_written_in_decimal() {
    assert_eq!(score_text(&Score(0)), "0");
    assert_eq!(score_text(&Score(7)), "7");
    assert_eq!(score_text(&Score(10)), "10");
    assert_eq!(score_text(&Score(1_203)), "1203");
    assert_eq!(score_text(&Score(u32::MAX)), "4294967295");
    for n in [9u32, 99, 100, 101, 65_535, 1_000_000_000] {
        assert_eq!(score_text(&Score(n)), n.to_string());
    }
}

#[test]
fn the_label_shows_the_score() {
    let at = Transform::from_translation(Vec3 { x: 1, y: 2, z: 3 });
    let mut label = Scoreboard { transform: at, text: String::from("old") };
    label.show(&Score(345));
    assert_eq!(label.text, "345");
    assert_eq!(label.transform, at);
}
