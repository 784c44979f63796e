use harfbuzz::Direction;

#[test]
fn types_direction() {
    assert!(Direction::Ltr.is_horizontal());
    assert!(Direction::Rtl.is_horizontal());
    assert!(!Direction::Ttb.is_horizontal());
    assert!(!Direction::Btt.is_horizontal());

    assert!(!Direction::Ltr.is_vertical());
    assert!(!Direction::Rtl.is_vertical());
    assert!(Direction::Ttb.is_vertical());
    assert!(Direction::Btt.is_vertical());

    assert!(Direction::Ltr.is_forward());
    assert!(!Direction::Rtl.is_forward());
    assert!(Direction::Ttb.is_forward());
    assert!(!Direction::Btt.is_forward());

    assert!(!Direction::Ltr.is_backward());
    assert!(Direction::Rtl.is_backward());
    assert!(!Direction::Ttb.is_backward());
    assert!(Direction::Btt.is_backward());

    assert_eq!(Direction::Ltr.reverse(), Direction::Rtl);
    assert_eq!(Direction::Rtl.reverse(), Direction::Ltr);
    assert_eq!(Direction::Ttb.reverse(), Direction::Btt);
    assert_eq!(Direction::Btt.reverse(), Direction::Ttb);

    assert_eq!(Direction::from_string(""), Err(()));
    assert_eq!(Direction::from_string("x"), Err(()));
    assert_eq!(Direction::from_string("r"), Ok(Direction::Rtl));
    assert_eq!(Direction::from_string("rtl"), Ok(Direction::Rtl));
    assert_eq!(Direction::from_string("RtL"), Ok(Direction::Rtl));
    assert_eq!(Direction::from_string("right-to-left"), Ok(Direction::Rtl));
    assert_eq!(Direction::from_string("ttb"), Ok(Direction::Ttb));

    assert_eq!(Direction::Ltr.to_string(), "ltr");
    assert_eq!(Direction::Rtl.to_string(), "rtl");
    assert_eq!(Direction::Ttb.to_string(), "ttb");
    assert_eq!(Direction::Btt.to_string(), "btt");
}

const ALL: [Direction; 4] = [Direction::Ltr, Direction::Rtl, Direction::Ttb, Direction::Btt];

#[test]
fn direction_parse_ignores_case() {
    assert_eq!(Direction::from_string("RtL"), Direction::from_string("rtl"));
    assert_eq!(Direction::from_string("L"), Ok(Direction::Ltr));
    assert_eq!(Direction::from_string("T"), Ok(Direction::Ttb));
    assert_eq!(Direction::from_string("B"), Ok(Direction::Btt));
    assert_eq!(Direction::from_string("bTT"), Ok(Direction::Btt));
}

#[test]
fn direction_parse_reads_first_letter_only() {
    assert_eq!(Direction::from_string("left-to-right"), Ok(Direction::Ltr));
    assert_eq!(Direction::from_string("top-to-bottom"), Ok(Direction::Ttb));
    assert_eq!(Direction::from_string("bottom-to-top"), Ok(Direction::Btt));
    assert_eq!(Direction::from_string("banana"), Ok(Direction::Btt));
}

#[test]
fn direction_parse_rejects_unknown() {
    assert_eq!(Direction::from_string(" ltr"), Err(()));
    assert_eq!(Direction::from_string("éltr"), Err(()));
    assert_eq!(Direction::from_string("X"), Err(()));
}

#[test]
fn direction_parse_of_label() {
    for d in ALL.iter() {
        assert_eq!(Direction::from_string(d.to_string()), Ok(*d));
    }
}

#[test]
fn direction_axis_and_sense_exclusive() {
    for d in ALL.iter() {
        assert_ne!(d.is_horizontal(), d.is_vertical());
        assert_ne!(d.is_forward(), d.is_backward());
    }
}

#[test]
fn direction_reverse_involution() {
    for d in ALL.iter() {
        assert_eq!(d.reverse().reverse(), *d);
        assert_ne!(d.reverse(), *d);
        assert_eq!(d.reverse().is_horizontal(), d.is_horizontal());
    }
    assert_eq!(Direction::Ttb.reverse(), Direction::Btt);
}
