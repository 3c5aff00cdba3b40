use clipper::position::{resolve, LabelPosition};

const ALL: [LabelPosition; 6] = [
    LabelPosition::BottomLeft,
    LabelPosition::BottomMiddle,
    LabelPosition::BottomRight,
    LabelPosition::TopLeft,
    LabelPosition::TopMiddle,
    LabelPosition::TopRight,
];

#[test]
fn bottom_left_coordinates() {
    let c = resolve(LabelPosition::BottomLeft);
    assert_eq!(c.x, "(5)");
    assert_eq!(c.y, "(h-(text_h+5))");
    assert_eq!(c.render(), "x=(5):y=(h-(text_h+5))");
}

#[test]
fn bottom_middle_coordinates() {
    assert_eq!(resolve(LabelPosition::BottomMiddle).render(), "x=(w-text_w)/2:y=(h-(text_h+5))");
}

#[test]
fn bottom_right_coordinates() {
    assert_eq!(
        resolve(LabelPosition::BottomRight).render(),
        "x=(w-(text_w+5)):y=(h-(text_h+5))"
    );
}

#[test]
fn top_left_coordinates() {
    assert_eq!(resolve(LabelPosition::TopLeft).render(), "x=(5):y=(5+5)");
}

#[test]
fn top_middle_coordinates() {
    assert_eq!(resolve(LabelPosition::TopMiddle).render(), "x=(w-text_w)/2:y=(5+5)");
}

#[test]
fn top_right_coordinates() {
    assert_eq!(resolve(LabelPosition::TopRight).render(), "x=(w-(text_w+5)):y=(5+5)");
}

#[test]
fn coordinates_are_pairwise_distinct() {
    for (i, p) in ALL.iter().enumerate() {
        for q in ALL.iter().skip(i + 1) {
            assert_ne!(resolve(*p).render(), resolve(*q).render());
        }
    }
}

#[test]
fn bottom_and_top_never_share_the_vertical_term() {
    for p in &ALL[..3] {
        for q in &ALL[3..] {
            assert_ne!(resolve(*p).y, resolve(*q).y);
        }
    }
}

#[test]
fn symbols_read_back() {
    for p in ALL {
        assert_eq!(LabelPosition::from_symbol(&p.symbol()), Some(p));
    }
    assert_eq!(LabelPosition::from_symbol("top_left"), Some(LabelPosition::TopLeft));
    assert_eq!(LabelPosition::from_symbol("bottom_middle"), Some(LabelPosition::BottomMiddle));
}

#[test]
fn unknown_symbols_name_no_position() {
    assert_eq!(LabelPosition::from_symbol("center"), None);
    assert_eq!(LabelPosition::from_symbol("Top_Left"), None);
    assert_eq!(LabelPosition::from_symbol(""), None);
}
