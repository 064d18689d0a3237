//! The rich-presence activity that a client shows in Discord, and its JSON
//! form: every field under its own name, an absent field as `null`.

use vstd::prelude::*;
use crate::json::{
    lemma_lookup_first,
    entry_models_of, models_of, opt_str_json, opt_str_model, opt_u64_json, opt_u64_model, push_entry,
    push_item, JsonModel, JsonNumber, JsonValue, NumberModel,
};

verus! {

/// Start and end of the activity, in seconds since the Unix epoch.
#[derive(Debug, Clone, PartialEq)]
pub struct Timestamps {
    pub start: Option<u64>,
    pub end: Option<u64>,
}

/// Image keys and hover texts shown with the activity.
#[derive(Debug, Clone, PartialEq)]
pub struct Assets {
    pub large_image: Option<String>,
    pub large_text: Option<String>,
    pub small_image: Option<String>,
    pub small_text: Option<String>,
}

/// The party the user is in: its id and its current and maximum size.
#[derive(Debug, Clone, PartialEq)]
pub struct Party {
    pub id: Option<String>,
    pub size: Option<[u32; 2]>,
}

/// Secrets for joining and spectating; `match_secret` goes out as `match`.
#[derive(Debug, Clone, PartialEq)]
pub struct Secrets {
    pub join: Option<String>,
    pub spectate: Option<String>,
    pub match_secret: Option<String>,
}

/// A rich-presence activity.
#[derive(Debug, Clone, PartialEq)]
pub struct Activity {
    pub details: Option<String>,
    pub state: Option<String>,
    pub timestamps: Option<Timestamps>,
    pub assets: Option<Assets>,
    pub party: Option<Party>,
    pub secrets: Option<Secrets>,
    pub instance: Option<bool>,
}

impl Timestamps {
    pub open spec fn json_model(self) -> JsonModel {
        JsonModel::Object(
            seq![("start"@, opt_u64_model(self.start)), ("end"@, opt_u64_model(self.end))],
        )
    }

    /// This value as a JSON object.
    pub fn to_json(&self) -> (res: JsonValue)
        ensures
            res.model() == self.json_model(),
    {
        let mut e: Vec<(String, JsonValue)> = Vec::new();
        push_entry(&mut e, "start", opt_u64_json(self.start));
        push_entry(&mut e, "end", opt_u64_json(self.end));
        assert(entry_models_of(e@) =~= seq![
            ("start"@, opt_u64_model(self.start)),
            ("end"@, opt_u64_model(self.end)),
        ]);
        JsonValue::Object(e)
    }
}

impl Assets {
    pub open spec fn json_model(self) -> JsonModel {
        JsonModel::Object(
            seq![
                ("large_image"@, opt_str_model(self.large_image)),
                ("large_text"@, opt_str_model(self.large_text)),
                ("small_image"@, opt_str_model(self.small_image)),
                ("small_text"@, opt_str_model(self.small_text)),
            ],
        )
    }

    /// This value as a JSON object.
    pub fn to_json(&self) -> (res: JsonValue)
        ensures
            res.model() == self.json_model(),
    {
        let mut e: Vec<(String, JsonValue)> = Vec::new();
        push_entry(&mut e, "large_image", opt_str_json(&self.large_image));
        push_entry(&mut e, "large_text", opt_str_json(&self.large_text));
        push_entry(&mut e, "small_image", opt_str_json(&self.small_image));
        push_entry(&mut e, "small_text", opt_str_json(&self.small_text));
        assert(entry_models_of(e@) =~= seq![
            ("large_image"@, opt_str_model(self.large_image)),
            ("large_text"@, opt_str_model(self.large_text)),
            ("small_image"@, opt_str_model(self.small_image)),
            ("small_text"@, opt_str_model(self.small_text)),
        ]);
        JsonValue::Object(e)
    }
}

/// The reading of a party size: the array of its two numbers, or `null`.
pub open spec fn size_model(size: Option<[u32; 2]>) -> JsonModel {
    match size {
        Some(s) => JsonModel::Array(
            seq![
                JsonModel::Number(NumberModel::PosInt(s[0] as u64)),
                JsonModel::Number(NumberModel::PosInt(s[1] as u64)),
            ],
        ),
        None => JsonModel::Null,
    }
}

impl Party {
    pub open spec fn json_model(self) -> JsonModel {
        JsonModel::Object(
            seq![("id"@, opt_str_model(self.id)), ("size"@, size_model(self.size))],
        )
    }

    /// This value as a JSON object.
    pub fn to_json(&self) -> (res: JsonValue)
        ensures
            res.model() == self.json_model(),
    {
        let size = match self.size {
            Some(s) => {
                let mut items: Vec<JsonValue> = Vec::new();
                push_item(&mut items, JsonValue::Number(JsonNumber::PosInt(s[0] as u64)));
                push_item(&mut items, JsonValue::Number(JsonNumber::PosInt(s[1] as u64)));
                assert(models_of(items@) =~= seq![
                    JsonModel::Number(NumberModel::PosInt(s[0] as u64)),
                    JsonModel::Number(NumberModel::PosInt(s[1] as u64)),
                ]);
                JsonValue::Array(items)
            },
            None => JsonValue::Null,
        };
        let mut e: Vec<(String, JsonValue)> = Vec::new();
        push_entry(&mut e, "id", opt_str_json(&self.id));
        push_entry(&mut e, "size", size);
        assert(entry_models_of(e@) =~= seq![
            ("id"@, opt_str_model(self.id)),
            ("size"@, size_model(self.size)),
        ]);
        JsonValue::Object(e)
    }
}

impl Secrets {
    pub open spec fn json_model(self) -> JsonModel {
        JsonModel::Object(
            seq![
                ("join"@, opt_str_model(self.join)),
                ("spectate"@, opt_str_model(self.spectate)),
                ("match"@, opt_str_model(self.match_secret)),
            ],
        )
    }

    /// This value as a JSON object.
    pub fn to_json(&self) -> (res: JsonValue)
        ensures
            res.model() == self.json_model(),
    {
        let mut e: Vec<(String, JsonValue)> = Vec::new();
        push_entry(&mut e, "join", opt_str_json(&self.join));
        push_entry(&mut e, "spectate", opt_str_json(&self.spectate));
        push_entry(&mut e, "match", opt_str_json(&self.match_secret));
        assert(entry_models_of(e@) =~= seq![
            ("join"@, opt_str_model(self.join)),
            ("spectate"@, opt_str_model(self.spectate)),
            ("match"@, opt_str_model(self.match_secret)),
        ]);
        JsonValue::Object(e)
    }
}

/// The reading of optional timestamps: their object, or `null`.
pub open spec fn opt_timestamps_model(v: Option<Timestamps>) -> JsonModel {
    match v {
        Some(t) => t.json_model(),
        None => JsonModel::Null,
    }
}

/// The reading of optional assets: their object, or `null`.
pub open spec fn opt_assets_model(v: Option<Assets>) -> JsonModel {
    match v {
        Some(a) => a.json_model(),
        None => JsonModel::Null,
    }
}

/// The reading of an optional party: its object, or `null`.
pub open spec fn opt_party_model(v: Option<Party>) -> JsonModel {
    match v {
        Some(p) => p.json_model(),
        None => JsonModel::Null,
    }
}

/// The reading of optional secrets: their object, or `null`.
pub open spec fn opt_secrets_model(v: Option<Secrets>) -> JsonModel {
    match v {
        Some(s) => s.json_model(),
        None => JsonModel::Null,
    }
}

/// The reading of an optional flag: the flag, or `null`.
pub open spec fn opt_bool_model(v: Option<bool>) -> JsonModel {
    match v {
        Some(b) => JsonModel::Bool(b),
        None => JsonModel::Null,
    }
}

impl Activity {
    pub open spec fn json_model(self) -> JsonModel {
        JsonModel::Object(
            seq![
                ("details"@, opt_str_model(self.details)),
                ("state"@, opt_str_model(self.state)),
                ("timestamps"@, opt_timestamps_model(self.timestamps)),
                ("assets"@, opt_assets_model(self.assets)),
                ("party"@, opt_party_model(self.party)),
                ("secrets"@, opt_secrets_model(self.secrets)),
                ("instance"@, opt_bool_model(self.instance)),
            ],
        )
    }

    /// This activity as the JSON object that Discord reads.
    pub fn to_json(&self) -> (res: JsonValue)
        ensures
            res.model() == self.json_model(),
    {
        let timestamps = match &self.timestamps {
            Some(t) => t.to_json(),
            None => JsonValue::Null,
        };
        let assets = match &self.assets {
            Some(a) => a.to_json(),
            None => JsonValue::Null,
        };
        let party = match &self.party {
            Some(p) => p.to_json(),
            None => JsonValue::Null,
        };
        let secrets = match &self.secrets {
            Some(s) => s.to_json(),
            None => JsonValue::Null,
        };
        let instance = match self.instance {
            Some(b) => JsonValue::Bool(b),
            None => JsonValue::Null,
        };
        let ghost tm = timestamps.model();
        let ghost am = assets.model();
        let ghost pm = party.model();
        let ghost sm = secrets.model();
        let ghost im = instance.model();
        assert(tm == opt_timestamps_model(self.timestamps));
        assert(am == opt_assets_model(self.assets));
        assert(pm == opt_party_model(self.party));
        assert(sm == opt_secrets_model(self.secrets));
        assert(im == opt_bool_model(self.instance));
        let mut e: Vec<(String, JsonValue)> = Vec::new();
        push_entry(&mut e, "details", opt_str_json(&self.details));
        push_entry(&mut e, "state", opt_str_json(&self.state));
        push_entry(&mut e, "timestamps", timestamps);
        push_entry(&mut e, "assets", assets);
        push_entry(&mut e, "party", party);
        push_entry(&mut e, "secrets", secrets);
        push_entry(&mut e, "instance", instance);
        assert(entry_models_of(e@) =~= seq![
            ("details"@, opt_str_model(self.details)),
            ("state"@, opt_str_model(self.state)),
            ("timestamps"@, tm),
            ("assets"@, am),
            ("party"@, pm),
            ("secrets"@, sm),
            ("instance"@, im),
        ]);
        let res = JsonValue::Object(e);
        assert(res.model() == JsonModel::Object(entry_models_of(e@)));
        res
    }
}

/// Each time appears under its own name: the number of seconds, or `null`
/// when absent; and nothing else appears.
pub proof fn lemma_timestamps_fields(v: Timestamps)
    ensures
        v.json_model() matches JsonModel::Object(entries) && entries.len() == 2,
        match v.start {
            Some(n) => v.json_model().get("start"@) == Some(JsonModel::Number(NumberModel::PosInt(n))),
            None => v.json_model().get("start"@) == Some(JsonModel::Null),
        },
        match v.end {
            Some(n) => v.json_model().get("end"@) == Some(JsonModel::Number(NumberModel::PosInt(n))),
            None => v.json_model().get("end"@) == Some(JsonModel::Null),
        },
{
    reveal_strlit("start");
    reveal_strlit("end");
    let entries = match v.json_model() {
        JsonModel::Object(e) => e,
        _ => Seq::empty(),
    };
    lemma_lookup_first(entries, 0, "start"@);
    assert(entries[0].0 != "end"@) by {
        assert(entries[0].0 =~= "start"@);
        assert("start"@.len() != "end"@.len());
    }
    lemma_lookup_first(entries, 1, "end"@);
}

/// Each image key and text appears under its own name with its own value:
/// the text, or `null` when absent; and nothing else appears.
pub proof fn lemma_assets_fields(v: Assets)
    ensures
        v.json_model() matches JsonModel::Object(entries) && entries.len() == 4,
        match v.large_image {
            Some(t) => v.json_model().get("large_image"@) == Some(JsonModel::Str(t@)),
            None => v.json_model().get("large_image"@) == Some(JsonModel::Null),
        },
        match v.large_text {
            Some(t) => v.json_model().get("large_text"@) == Some(JsonModel::Str(t@)),
            None => v.json_model().get("large_text"@) == Some(JsonModel::Null),
        },
        match v.small_image {
            Some(t) => v.json_model().get("small_image"@) == Some(JsonModel::Str(t@)),
            None => v.json_model().get("small_image"@) == Some(JsonModel::Null),
        },
        match v.small_text {
            Some(t) => v.json_model().get("small_text"@) == Some(JsonModel::Str(t@)),
            None => v.json_model().get("small_text"@) == Some(JsonModel::Null),
        },
{
    reveal_strlit("large_image");
    reveal_strlit("large_text");
    reveal_strlit("small_image");
    reveal_strlit("small_text");
    let entries = match v.json_model() {
        JsonModel::Object(e) => e,
        _ => Seq::empty(),
    };
    lemma_lookup_first(entries, 0, "large_image"@);
    assert(entries[0].0 != "large_text"@) by {
        assert(entries[0].0 =~= "large_image"@);
        assert("large_image"@.len() != "large_text"@.len());
    }
    lemma_lookup_first(entries, 1, "large_text"@);
    assert(entries[0].0 != "small_image"@) by {
        assert(entries[0].0 =~= "large_image"@);
        assert("large_image"@[0] != "small_image"@[0]);
    }
    assert(entries[1].0 != "small_image"@) by {
        assert(entries[1].0 =~= "large_text"@);
        assert("large_text"@.len() != "small_image"@.len());
    }
    lemma_lookup_first(entries, 2, "small_image"@);
    assert(entries[0].0 != "small_text"@) by {
        assert(entries[0].0 =~= "large_image"@);
        assert("large_image"@.len() != "small_text"@.len());
    }
    assert(entries[1].0 != "small_text"@) by {
        assert(entries[1].0 =~= "large_text"@);
        assert("large_text"@[0] != "small_text"@[0]);
    }
    assert(entries[2].0 != "small_text"@) by {
        assert(entries[2].0 =~= "small_image"@);
        assert("small_image"@.len() != "small_text"@.len());
    }
    lemma_lookup_first(entries, 3, "small_text"@);
}

/// The party's id and size appear under their own names: the id's text, the
/// size as the array of its two numbers, or `null` when absent; and nothing
/// else appears.
pub proof fn lemma_party_fields(v: Party)
    ensures
        v.json_model() matches JsonModel::Object(entries) && entries.len() == 2,
        match v.id {
            Some(t) => v.json_model().get("id"@) == Some(JsonModel::Str(t@)),
            None => v.json_model().get("id"@) == Some(JsonModel::Null),
        },
        match v.size {
            Some(sz) => v.json_model().get("size"@) == Some(JsonModel::Array(seq![
                JsonModel::Number(NumberModel::PosInt(sz[0] as u64)),
                JsonModel::Number(NumberModel::PosInt(sz[1] as u64)),
            ])),
            None => v.json_model().get("size"@) == Some(JsonModel::Null),
        },
{
    reveal_strlit("id");
    reveal_strlit("size");
    let entries = match v.json_model() {
        JsonModel::Object(e) => e,
        _ => Seq::empty(),
    };
    lemma_lookup_first(entries, 0, "id"@);
    assert(entries[0].0 != "size"@) by {
        assert(entries[0].0 =~= "id"@);
        assert("id"@.len() != "size"@.len());
    }
    lemma_lookup_first(entries, 1, "size"@);
}

/// Each secret appears under its own name with its own text, `match_secret`
/// under `match`, or `null` when absent; and nothing else appears.
pub proof fn lemma_secrets_fields(v: Secrets)
    ensures
        v.json_model() matches JsonModel::Object(entries) && entries.len() == 3,
        match v.join {
            Some(t) => v.json_model().get("join"@) == Some(JsonModel::Str(t@)),
            None => v.json_model().get("join"@) == Some(JsonModel::Null),
        },
        match v.spectate {
            Some(t) => v.json_model().get("spectate"@) == Some(JsonModel::Str(t@)),
            None => v.json_model().get("spectate"@) == Some(JsonModel::Null),
        },
        match v.match_secret {
            Some(t) => v.json_model().get("match"@) == Some(JsonModel::Str(t@)),
            None => v.json_model().get("match"@) == Some(JsonModel::Null),
        },
{
    reveal_strlit("join");
    reveal_strlit("spectate");
    reveal_strlit("match");
    let entries = match v.json_model() {
        JsonModel::Object(e) => e,
        _ => Seq::empty(),
    };
    lemma_lookup_first(entries, 0, "join"@);
    assert(entries[0].0 != "spectate"@) by {
        assert(entries[0].0 =~= "join"@);
        assert("join"@.len() != "spectate"@.len());
    }
    lemma_lookup_first(entries, 1, "spectate"@);
    assert(entries[0].0 != "match"@) by {
        assert(entries[0].0 =~= "join"@);
        assert("join"@.len() != "match"@.len());
    }
    assert(entries[1].0 != "match"@) by {
        assert(entries[1].0 =~= "spectate"@);
        assert("spectate"@.len() != "match"@.len());
    }
    lemma_lookup_first(entries, 2, "match"@);
}

/// Each field of the activity appears under its own name with its own
/// value, `null` when absent; and nothing else appears.
pub proof fn lemma_activity_fields(v: Activity)
    ensures
        v.json_model() matches JsonModel::Object(entries) && entries.len() == 7,
        match v.details {
            Some(t) => v.json_model().get("details"@) == Some(JsonModel::Str(t@)),
            None => v.json_model().get("details"@) == Some(JsonModel::Null),
        },
        match v.state {
            Some(t) => v.json_model().get("state"@) == Some(JsonModel::Str(t@)),
            None => v.json_model().get("state"@) == Some(JsonModel::Null),
        },
        match v.timestamps {
            Some(x) => v.json_model().get("timestamps"@) == Some(x.json_model()),
            None => v.json_model().get("timestamps"@) == Some(JsonModel::Null),
        },
        match v.assets {
            Some(x) => v.json_model().get("assets"@) == Some(x.json_model()),
            None => v.json_model().get("assets"@) == Some(JsonModel::Null),
        },
        match v.party {
            Some(x) => v.json_model().get("party"@) == Some(x.json_model()),
            None => v.json_model().get("party"@) == Some(JsonModel::Null),
        },
        match v.secrets {
            Some(x) => v.json_model().get("secrets"@) == Some(x.json_model()),
            None => v.json_model().get("secrets"@) == Some(JsonModel::Null),
        },
        match v.instance {
            Some(b) => v.json_model().get("instance"@) == Some(JsonModel::Bool(b)),
            None => v.json_model().get("instance"@) == Some(JsonModel::Null),
        },
{
    reveal_strlit("details");
    reveal_strlit("state");
    reveal_strlit("timestamps");
    reveal_strlit("assets");
    reveal_strlit("party");
    reveal_strlit("secrets");
    reveal_strlit("instance");
    let entries = match v.json_model() {
        JsonModel::Object(e) => e,
        _ => Seq::empty(),
    };
    lemma_lookup_first(entries, 0, "details"@);
    assert(entries[0].0 != "state"@) by {
        assert(entries[0].0 =~= "details"@);
        assert("details"@.len() != "state"@.len());
    }
    lemma_lookup_first(entries, 1, "state"@);
    assert(entries[0].0 != "timestamps"@) by {
        assert(entries[0].0 =~= "details"@);
        assert("details"@.len() != "timestamps"@.len());
    }
    assert(entries[1].0 != "timestamps"@) by {
        assert(entries[1].0 =~= "state"@);
        assert("state"@.len() != "timestamps"@.len());
    }
    lemma_lookup_first(entries, 2, "timestamps"@);
    assert(entries[0].0 != "assets"@) by {
        assert(entries[0].0 =~= "details"@);
        assert("details"@.len() != "assets"@.len());
    }
    assert(entries[1].0 != "assets"@) by {
        assert(entries[1].0 =~= "state"@);
        assert("state"@.len() != "assets"@.len());
    }
    assert(entries[2].0 != "assets"@) by {
        assert(entries[2].0 =~= "timestamps"@);
        assert("timestamps"@.len() != "assets"@.len());
    }
    lemma_lookup_first(entries, 3, "assets"@);
    assert(entries[0].0 != "party"@) by {
        assert(entries[0].0 =~= "details"@);
        assert("details"@.len() != "party"@.len());
    }
    assert(entries[1].0 != "party"@) by {
        assert(entries[1].0 =~= "state"@);
        assert("state"@[0] != "party"@[0]);
    }
    assert(entries[2].0 != "party"@) by {
        assert(entries[2].0 =~= "timestamps"@);
        assert("timestamps"@.len() != "party"@.len());
    }
    assert(entries[3].0 != "party"@) by {
        assert(entries[3].0 =~= "assets"@);
        assert("assets"@.len() != "party"@.len());
    }
    lemma_lookup_first(entries, 4, "party"@);
    assert(entries[0].0 != "secrets"@) by {
        assert(entries[0].0 =~= "details"@);
        assert("details"@[0] != "secrets"@[0]);
    }
    assert(entries[1].0 != "secrets"@) by {
        assert(entries[1].0 =~= "state"@);
        assert("state"@.len() != "secrets"@.len());
    }
    assert(entries[2].0 != "secrets"@) by {
        assert(entries[2].0 =~= "timestamps"@);
        assert("timestamps"@.len() != "secrets"@.len());
    }
    assert(entries[3].0 != "secrets"@) by {
        assert(entries[3].0 =~= "assets"@);
        assert("assets"@.len() != "secrets"@.len());
    }
    assert(entries[4].0 != "secrets"@) by {
        assert(entries[4].0 =~= "party"@);
        assert("party"@.len() != "secrets"@.len());
    }
    lemma_lookup_first(entries, 5, "secrets"@);
    assert(entries[0].0 != "instance"@) by {
        assert(entries[0].0 =~= "details"@);
        assert("details"@.len() != "instance"@.len());
    }
    assert(entries[1].0 != "instance"@) by {
        assert(entries[1].0 =~= "state"@);
        assert("state"@.len() != "instance"@.len());
    }
    assert(entries[2].0 != "instance"@) by {
        assert(entries[2].0 =~= "timestamps"@);
        assert("timestamps"@.len() != "instance"@.len());
    }
    assert(entries[3].0 != "instance"@) by {
        assert(entries[3].0 =~= "assets"@);
        assert("assets"@.len() != "instance"@.len());
    }
    assert(entries[4].0 != "instance"@) by {
        assert(entries[4].0 =~= "party"@);
        assert("party"@.len() != "instance"@.len());
    }
    assert(entries[5].0 != "instance"@) by {
        assert(entries[5].0 =~= "secrets"@);
        assert("secrets"@.len() != "instance"@.len());
    }
    lemma_lookup_first(entries, 6, "instance"@);
}

} // verus!
