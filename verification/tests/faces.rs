use ascii_cube::face::{face_table, CoordRule};

#[test]
fn face_table_matches_layout() {
    let t = face_table();
    assert_eq!(t.len(), 6);
    let expected = [
        (CoordRule::PlusU, CoordRule::PlusV, CoordRule::MinusHalf, '*'),
        (CoordRule::PlusHalf, CoordRule::PlusV, CoordRule::PlusU, '&'),
        (CoordRule::MinusHalf, CoordRule::PlusV, CoordRule::MinusU, '$'),
        (CoordRule::MinusU, CoordRule::PlusV, CoordRule::PlusHalf, '#'),
        (CoordRule::PlusU, CoordRule::MinusHalf, CoordRule::MinusV, '@'),
        (CoordRule::PlusU, CoordRule::PlusHalf, CoordRule::PlusV, '+'),
    ];
    for (f, e) in t.iter().zip(expected.iter()) {
        assert_eq!(f.i_rule, e.0);
        assert_eq!(f.j_rule, e.1);
        assert_eq!(f.k_rule, e.2);
        assert_eq!(f.glyph, e.3);
    }
}

#[test]
fn face_glyphs_are_distinct() {
    let t = face_table();
    for m in 0..t.len() {
        for n in 0..t.len() {
            if m != n {
                assert_ne!(t[m].glyph, t[n].glyph);
            }
        }
    }
}

#[test]
fn each_face_pins_one_axis() {
    let t = face_table();
    for f in t.iter() {
        let pinned = [f.i_rule, f.j_rule, f.k_rule]
            .iter()
            .filter(|r| matches!(r, CoordRule::PlusHalf | CoordRule::MinusHalf))
            .count();
        assert_eq!(pinned, 1);
    }
}
