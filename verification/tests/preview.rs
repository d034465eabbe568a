use picarus::effects::ItemMinMaxEffect;
use picarus::game_data_view::{PreviewValues, Previews};
use picarus::kinds::Quality;

#[test]
fn tempering_steps_keep_the_total() {
    let mut p = PreviewValues::new();
    assert_eq!(p.quality, Quality::Simple);
    p.increase_tempering(Some(2), Some(1));
    p.increase_tempering(Some(2), Some(1));
    p.increase_tempering(Some(2), Some(1));
    assert_eq!((p.tempering, p.total_tempering), (2, 2));
    p.increase_reverse_tempering(Some(2), Some(1));
    p.increase_reverse_tempering(Some(2), Some(1));
    assert_eq!((p.reverse_tempering, p.total_tempering), (1, 3));
    p.decrease_tempering();
    assert_eq!((p.tempering, p.total_tempering), (1, 2));
    p.decrease_reverse_tempering();
    p.decrease_reverse_tempering();
    assert_eq!((p.reverse_tempering, p.total_tempering), (0, 1));
}

#[test]
fn no_limits_no_tempering() {
    let mut p = PreviewValues::new();
    p.increase_tempering(None, Some(3));
    p.increase_reverse_tempering(Some(3), None);
    assert_eq!((p.tempering, p.reverse_tempering, p.total_tempering), (0, 0, 0));
}

#[test]
fn transcendence_stays_in_its_limit() {
    let mut p = PreviewValues::new();
    p.increase_transcendence(Some(1));
    p.increase_transcendence(Some(1));
    assert_eq!(p.transcendence, 1);
    p.increase_transcendence(None);
    assert_eq!(p.transcendence, 1);
    p.decrease_transcendence();
    p.decrease_transcendence();
    assert_eq!(p.transcendence, 0);
}

#[test]
fn previews_keep_one_entry_per_item() {
    let mut ps = Previews::new();
    assert!(ps.get("sw_1").is_none());
    ps.ensure("sw_1");
    let fresh = ps.get("sw_1").unwrap();
    assert_eq!((fresh.quality, fresh.transcendence, fresh.total_tempering), (Quality::Simple, 0, 0));
    ps.entry("sw_1").increase_transcendence(Some(3));
    ps.ensure("sw_1");
    assert_eq!(ps.get("sw_1").unwrap().transcendence, 1);
    let other = ps.entry("sw_2");
    assert_eq!(other.transcendence, 0);
    other.increase_tempering(Some(2), Some(2));
    assert_eq!(ps.get("sw_1").unwrap().tempering, 0);
    assert_eq!(ps.get("sw_2").unwrap().tempering, 1);
}

#[test]
fn steps_leave_the_choices_alone() {
    let mut p = PreviewValues::new();
    p.materials.insert(2, true);
    p.random_effects.insert(1, ItemMinMaxEffect::new("a_1_2"));
    p.increase_transcendence(Some(2));
    p.increase_tempering(Some(2), Some(1));
    p.increase_reverse_tempering(Some(2), Some(1));
    p.decrease_tempering();
    p.decrease_reverse_tempering();
    p.decrease_transcendence();
    assert_eq!(p.materials.get(&2), Some(&true));
    assert_eq!(p.random_effects.get(&1).map(|e| e.effect.as_str()), Some("a_1_2"));
    assert_eq!((p.transcendence, p.tempering, p.reverse_tempering, p.total_tempering), (0, 0, 0, 0));
}

#[test]
fn transcendence_up_then_down_gives_back_the_preview() {
    let mut p = PreviewValues::new();
    p.increase_transcendence(Some(4));
    p.increase_transcendence(Some(4));
    p.increase_transcendence(Some(4));
    p.decrease_transcendence();
    assert_eq!(p.transcendence, 2);
    p.increase_transcendence(Some(2));
    assert_eq!(p.transcendence, 2);
    p.decrease_transcendence();
    assert_eq!(p.transcendence, 1);
}
