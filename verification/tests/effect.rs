use shipyard::Effect;

#[test]
fn an_effect_that_is_off_counts_nothing() {
    let mut effect = Effect::new();
    assert_eq!(effect, Effect { active: false, ticks: 0 });
    effect.tick(10);
    assert_eq!(effect, Effect { active: false, ticks: 0 });
    let mut odd = Effect { active: false, ticks: 3 };
    odd.tick(2);
    assert_eq!(odd, Effect { active: false, ticks: 3 });
}

#[test]
fn an_effect_lasts_its_duration() {
    let mut effect = Effect::new();
    effect.active = true;
    for n in 1..10u32 {
        effect.tick(10);
        assert_eq!(effect, Effect { active: true, ticks: n });
    }
    effect.tick(10);
    assert_eq!(effect, Effect { active: false, ticks: 0 });
    effect.tick(10);
    assert_eq!(effect, Effect { active: false, ticks: 0 });
}

#[test]
fn an_effect_ends_at_once_where_the_duration_is_short_or_the_count_high() {
    let mut effect = Effect { active: true, ticks: 0 };
    effect.tick(0);
    assert_eq!(effect, Effect { active: false, ticks: 0 });
    let mut effect = Effect { active: true, ticks: 0 };
    effect.tick(1);
    assert_eq!(effect, Effect { active: false, ticks: 0 });
    let mut effect = Effect { active: true, ticks: u32::MAX };
    effect.tick(5);
    assert_eq!(effect, Effect { active: false, ticks: 0 });
    let mut effect = Effect { active: true, ticks: u32::MAX - 1 };
    effect.tick(u32::MAX);
    assert_eq!(effect, Effect { active: false, ticks: 0 });
    let mut effect = Effect { active: true, ticks: 118 };
    effect.tick(120);
    assert_eq!(effect, Effect { active: true, ticks: 119 });
}
