use risk_odds::Die;

#[test]
fn die_roll() {
    let mut die = Die::default();

    for _ in 1..1000 {
        let roll = die.roll();
        assert!(roll >= 1);
        assert!(roll <= 6);
    }
}

#[test]
fn die_roll_faces_roughly_uniform() {
    let mut die = Die::default();
    let mut counts = [0i64; 6];

    for _ in 0..10_000 {
        let roll = die.roll();
        assert!((1..=6).contains(&roll));
        counts[(roll - 1) as usize] += 1;
    }

    // Each face is expected about 1,667 times; the bounds are generous
    // enough that an honest die practically never strays outside them.
    for count in counts {
        assert!(count > 1300);
        assert!(count < 2050);
    }
}
