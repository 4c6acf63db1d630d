use sparse_record::{Entry, FieldName, FieldValue, Fields, MyError, Record, Severity};

fn names_of(r: &Record) -> Vec<FieldName> {
    r.entries.iter().map(|e| e.name).collect()
}

#[test]
fn only_account_id_populated() {
    let e = MyError {
        msg: "Something bad happened",
        fields: Fields {
            account_id: Some("a234fe".to_owned()),
            ..Default::default()
        },
    };
    let r = e.record();
    assert_eq!(r.severity, Severity::Error);
    assert_eq!(r.message, "Something bad happened");
    assert_eq!(
        r.entries,
        vec![Entry {
            name: FieldName::AccountId,
            value: FieldValue::Text("a234fe".to_owned()),
        }]
    );
}

#[test]
fn all_fields_absent() {
    let e = MyError {
        msg: "nothing to add",
        fields: Fields::default(),
    };
    let r = e.record();
    assert_eq!(r.severity, Severity::Error);
    assert_eq!(r.message, "nothing to add");
    assert!(r.entries.is_empty());
}

#[test]
fn explicit_zero_highscore_not_elided() {
    let e = MyError {
        msg: "score reset",
        fields: Fields {
            highscore: Some(0),
            ..Default::default()
        },
    };
    let r = e.record();
    assert_eq!(
        r.entries,
        vec![Entry {
            name: FieldName::Highscore,
            value: FieldValue::UInt(0),
        }]
    );
}

#[test]
fn explicit_zero_equivalents_not_elided() {
    let e = MyError {
        msg: "zeroes everywhere",
        fields: Fields {
            account_id: Some(String::new()),
            game_id: Some(0),
            highscore: Some(0),
        },
    };
    let r = e.record();
    assert_eq!(
        r.entries,
        vec![
            Entry {
                name: FieldName::AccountId,
                value: FieldValue::Text(String::new()),
            },
            Entry {
                name: FieldName::GameId,
                value: FieldValue::Int(0),
            },
            Entry {
                name: FieldName::Highscore,
                value: FieldValue::UInt(0),
            },
        ]
    );
}

#[test]
fn every_populated_subset_renders_exactly_itself() {
    for mask in 0u32..8 {
        let with_account = mask & 1 != 0;
        let with_game = mask & 2 != 0;
        let with_score = mask & 4 != 0;
        let e = MyError {
            msg: "combination",
            fields: Fields {
                account_id: if with_account { Some("acct".to_owned()) } else { None },
                game_id: if with_game { Some(-17) } else { None },
                highscore: if with_score { Some(99) } else { None },
            },
        };
        let r = e.record();
        let mut expected: Vec<FieldName> = Vec::new();
        if with_account {
            expected.push(FieldName::AccountId);
        }
        if with_game {
            expected.push(FieldName::GameId);
        }
        if with_score {
            expected.push(FieldName::Highscore);
        }
        assert_eq!(names_of(&r), expected);
        assert_eq!(r.message, "combination");
        assert_eq!(r.severity, Severity::Error);
    }
}

#[test]
fn populated_values_kept_exactly() {
    let e = MyError {
        msg: "full context",
        fields: Fields {
            account_id: Some("a234fe".to_owned()),
            game_id: Some(-9_876_543_210),
            highscore: Some(4_294_967_295),
        },
    };
    let r = e.record();
    assert_eq!(
        r.entries,
        vec![
            Entry {
                name: FieldName::AccountId,
                value: FieldValue::Text("a234fe".to_owned()),
            },
            Entry {
                name: FieldName::GameId,
                value: FieldValue::Int(-9_876_543_210),
            },
            Entry {
                name: FieldName::Highscore,
                value: FieldValue::UInt(4_294_967_295),
            },
        ]
    );
}

#[test]
fn absent_fields_never_appear() {
    let e = MyError {
        msg: "partial context",
        fields: Fields {
            game_id: Some(42),
            ..Default::default()
        },
    };
    let r = e.record();
    assert!(!names_of(&r).contains(&FieldName::AccountId));
    assert!(!names_of(&r).contains(&FieldName::Highscore));
    assert_eq!(names_of(&r), vec![FieldName::GameId]);
}

#[test]
fn message_always_present() {
    for mask in 0u32..8 {
        let e = MyError {
            msg: "kept in every emission",
            fields: Fields {
                account_id: if mask & 1 != 0 { Some("x".to_owned()) } else { None },
                game_id: if mask & 2 != 0 { Some(1) } else { None },
                highscore: if mask & 4 != 0 { Some(1) } else { None },
            },
        };
        let r = e.record();
        assert_eq!(r.message, "kept in every emission");
    }
}

#[test]
fn field_names_render_as_expected_text() {
    assert_eq!(FieldName::AccountId.as_text(), "account_id");
    assert_eq!(FieldName::GameId.as_text(), "game_id");
    assert_eq!(FieldName::Highscore.as_text(), "highscore");
    assert_eq!(Severity::Error.as_text(), "error");
}

#[test]
fn defaults_are_all_absent() {
    let f = Fields::default();
    assert!(f.account_id.is_none());
    assert!(f.game_id.is_none());
    assert!(f.highscore.is_none());
    let e = MyError::default();
    assert_eq!(e.msg, "");
    assert!(e.fields.account_id.is_none());
    let r = e.record();
    assert!(r.entries.is_empty());
    assert_eq!(r.message, "");
}
