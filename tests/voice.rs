use elevenlabs_rs::api::voice::{
    delete_voice_request, edit_voice_settings_request, get_default_settings_request,
    get_voice_request, get_voice_settings_request, get_voices_request, voice_path,
    voice_settings_path, Voice, VoiceSettings, Voices,
};
use elevenlabs_rs::api::Method;
use elevenlabs_rs::error::Error;

fn voice(id: &str, name: Option<&str>, category: Option<&str>) -> Voice {
    Voice {
        voice_id: id.to_string(),
        name: name.map(|n| n.to_string()),
        samples: None,
        category: category.map(|c| c.to_string()),
        labels: None,
        description: None,
        preview_url: None,
        settings: None,
    }
}

fn sample_voices() -> Voices {
    Voices {
        voices: vec![
            voice("a1", Some("Rachel"), Some("premade")),
            voice("b2", Some("Mine"), Some("cloned")),
            voice("c3", None, Some("cloned")),
            voice("d4", Some("Rachel"), Some("cloned")),
            voice("e5", Some("Other"), None),
        ],
    }
}

fn header_pairs(headers: &[(String, String)]) -> Vec<(&str, &str)> {
    headers.iter().map(|(k, v)| (k.as_str(), v.as_str())).collect()
}

#[test]
fn all_clones_keeps_cloned_in_order() {
    let vs = sample_voices();
    let ids: Vec<&str> = vs.all_clones().iter().map(|v| v.voice_id.as_str()).collect();
    assert_eq!(ids, vec!["b2", "c3", "d4"]);
}

#[test]
fn all_clones_of_empty_list() {
    let vs = Voices { voices: vec![] };
    assert!(vs.all_clones().is_empty());
}

#[test]
fn all_clones_category_is_exact() {
    let vs = Voices {
        voices: vec![voice("x", None, Some("Cloned")), voice("y", None, Some("cloned "))],
    };
    assert!(vs.all_clones().is_empty());
}

#[test]
fn by_name_finds_first_match() {
    let vs = sample_voices();
    let v = vs.by_name("Rachel").unwrap();
    assert_eq!(v.voice_id, "a1");
    assert_eq!(vs.by_name("Other").unwrap().voice_id, "e5");
}

#[test]
fn by_name_reports_missing_voice() {
    let vs = sample_voices();
    assert!(matches!(vs.by_name("Nobody"), Err(Error::VoiceNotFound)));
    assert!(matches!(vs.by_name(""), Err(Error::VoiceNotFound)));
    let empty = Voices { voices: vec![] };
    assert!(matches!(empty.by_name("Rachel"), Err(Error::VoiceNotFound)));
}

#[test]
fn voice_paths() {
    assert_eq!(voice_path("abc", false), "/voices/abc");
    assert_eq!(voice_path("abc", true), "/voices/abc?with_settings=true");
    assert_eq!(voice_settings_path("abc", false), "/voices/abc/settings");
    assert_eq!(voice_settings_path("abc", true), "/voices/abc/settings/edit");
}

#[test]
fn get_voices_request_is_json_get() {
    let r = get_voices_request("KEY");
    assert_eq!(r.method, Method::Get);
    assert_eq!(r.url, "https://api.elevenlabs.io/v1/voices");
    assert_eq!(
        header_pairs(&r.headers),
        vec![("xi-api-key", "KEY"), ("ACCEPT", "application/json")]
    );
}

#[test]
fn get_default_settings_request_url() {
    let r = get_default_settings_request("k");
    assert_eq!(r.method, Method::Get);
    assert_eq!(r.url, "https://api.elevenlabs.io/v1/voices/settings/default");
}

#[test]
fn get_voice_settings_request_url() {
    let r = get_voice_settings_request("k", "v1");
    assert_eq!(r.method, Method::Get);
    assert_eq!(r.url, "https://api.elevenlabs.io/v1/voices/v1/settings");
    assert_eq!(header_pairs(&r.headers)[0], ("xi-api-key", "k"));
}

#[test]
fn get_voice_request_urls() {
    let plain = get_voice_request("k", "v1", false);
    assert_eq!(plain.url, "https://api.elevenlabs.io/v1/voices/v1");
    let full = get_voice_request("k", "v1", true);
    assert_eq!(full.url, "https://api.elevenlabs.io/v1/voices/v1?with_settings=true");
    assert_eq!(full.method, Method::Get);
}

#[test]
fn delete_voice_request_uses_delete() {
    let r = delete_voice_request("k", "v9");
    assert_eq!(r.method, Method::Delete);
    assert_eq!(r.method.as_str(), "DELETE");
    assert_eq!(r.url, "https://api.elevenlabs.io/v1/voices/v9");
}

#[test]
fn edit_voice_settings_request_uses_post() {
    let r = edit_voice_settings_request("k", "v9");
    assert_eq!(r.method, Method::Post);
    assert_eq!(r.url, "https://api.elevenlabs.io/v1/voices/v9/settings/edit");
    assert_eq!(
        header_pairs(&r.headers),
        vec![("xi-api-key", "k"), ("ACCEPT", "application/json")]
    );
}

#[test]
fn voice_with_settings_request_for_named_voice() {
    let vs = sample_voices();
    let r = vs.voice_with_settings_request("k", "Mine").unwrap();
    assert_eq!(r.url, "https://api.elevenlabs.io/v1/voices/b2?with_settings=true");
    let r = vs.voice_with_settings_request("k", "Rachel").unwrap();
    assert_eq!(r.url, "https://api.elevenlabs.io/v1/voices/a1?with_settings=true");
}

#[test]
fn voice_with_settings_request_for_unknown_voice() {
    let vs = sample_voices();
    assert!(matches!(
        vs.voice_with_settings_request("k", "Nobody"),
        Err(Error::VoiceNotFound)
    ));
}

#[test]
fn default_voice_settings() {
    let s = VoiceSettings::default();
    assert_eq!(f64::from_bits(s.similarity_boost_bits), 0.75);
    assert_eq!(f64::from_bits(s.stability_bits), 0.5);
    assert_eq!(f64::from_bits(s.style_bits), 0.0);
    assert!(s.use_speaker_boost);
}
