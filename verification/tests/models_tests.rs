use communicator::decimal::decimal_string;
use communicator::json::JsonValue;
use communicator::models::{Activity, Assets, Party, Secrets, Timestamps};

fn keys(v: &JsonValue) -> Vec<String> {
    match v {
        JsonValue::Object(entries) => entries.iter().map(|(k, _)| k.clone()).collect(),
        _ => panic!("an object"),
    }
}

#[test]
fn activity_json_has_every_field() {
    let a = Activity {
        details: Some("Developing a Rust app".to_string()),
        state: Some("Coding".to_string()),
        timestamps: Some(Timestamps { start: Some(1_700_000_000), end: None }),
        assets: Some(Assets {
            large_image: Some("rust".to_string()),
            large_text: Some("Rust Programming".to_string()),
            small_image: Some("vscode".to_string()),
            small_text: Some("VS Code".to_string()),
        }),
        party: Some(Party { id: Some("p".to_string()), size: Some([1, 4]) }),
        secrets: Some(Secrets { join: Some("j".to_string()), spectate: None, match_secret: Some("m".to_string()) }),
        instance: Some(false),
    };
    let j = a.to_json();
    assert_eq!(
        keys(&j),
        vec!["details", "state", "timestamps", "assets", "party", "secrets", "instance"]
    );
    let ts = j.get("timestamps").unwrap();
    assert_eq!(ts.get("start").and_then(|v| v.as_u64()), Some(1_700_000_000));
    assert!(matches!(ts.get("end"), Some(JsonValue::Null)));
    let assets = j.get("assets").unwrap();
    assert_eq!(keys(assets), vec!["large_image", "large_text", "small_image", "small_text"]);
    let party = j.get("party").unwrap();
    match party.get("size") {
        Some(JsonValue::Array(items)) => {
            assert_eq!(items.len(), 2);
            assert_eq!(items[1].as_u64(), Some(4));
        },
        _ => panic!("size is an array"),
    }
    let secrets = j.get("secrets").unwrap();
    assert_eq!(keys(secrets), vec!["join", "spectate", "match"]);
    assert!(matches!(j.get("instance"), Some(JsonValue::Bool(false))));
}

#[test]
fn empty_activity_is_all_null() {
    let a = Activity {
        details: None,
        state: None,
        timestamps: None,
        assets: None,
        party: None,
        secrets: None,
        instance: None,
    };
    match a.to_json() {
        JsonValue::Object(entries) => {
            assert_eq!(entries.len(), 7);
            assert!(entries.iter().all(|(_, v)| matches!(v, JsonValue::Null)));
        },
        _ => panic!("an object"),
    }
}

#[test]
fn decimal_text() {
    assert_eq!(decimal_string(0), "0");
    assert_eq!(decimal_string(9), "9");
    assert_eq!(decimal_string(10), "10");
    assert_eq!(decimal_string(4_294_967_295), "4294967295");
}
