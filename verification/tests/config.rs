use aivchat::config::{
    names_of, providers_of, replace_provider, voice_id, AiApi, ChatEntry, Config,
    VoiceEntry,
};

fn api(name: &str, key: &str) -> AiApi {
    AiApi {
        name: name.to_string(),
        key: key.to_string(),
        url: format!("https://{}.test/", name),
        model: "m".to_string(),
    }
}

fn entry(key: &str, name: &str) -> ChatEntry {
    ChatEntry { key: key.to_string(), api: api(name, "secret") }
}

#[test]
fn provider_copies_are_equal() {
    let p = api("A", "k");
    assert_eq!(p.clone(), p);
    assert_eq!(p.label(), "A");
    assert_eq!(
        AiApi::default(),
        AiApi { name: String::new(), key: String::new(), url: String::new(), model: String::new() }
    );
}

#[test]
fn config_copies_are_equal() {
    let config = Config {
        ai_chats: vec![entry("a", "A"), entry("b", "B")],
        sel_chat: Some("A".to_string()),
        font_size: 16,
        rec_device: None,
        theme: "Light".to_string(),
        tr_model: "model.bin".to_string(),
        tr_lang: "EN".to_string(),
        prompt_context: Some("ctx".to_string()),
        voices: vec![VoiceEntry { name: "m".to_string(), id: "id-1".to_string() }],
    };
    assert_eq!(config.clone(), config);
}

#[test]
fn voice_is_found_by_name() {
    let voices = vec![
        VoiceEntry { name: "anna".to_string(), id: "id-a".to_string() },
        VoiceEntry { name: "bob".to_string(), id: "id-b".to_string() },
    ];
    assert_eq!(voice_id(&voices, "bob"), Some("id-b".to_string()));
    assert_eq!(voice_id(&voices, "anna"), Some("id-a".to_string()));
    assert_eq!(voice_id(&voices, "Bob"), None);
    assert_eq!(voice_id(&vec![], "bob"), None);
}

#[test]
fn provider_is_replaced_under_its_key_only() {
    let mut entries = vec![entry("a", "A"), entry("b", "B"), entry("c", "C")];
    let edited = api("B", "new-key");
    replace_provider(&mut entries, "b", &edited);
    assert_eq!(
        entries,
        vec![entry("a", "A"), ChatEntry { key: "b".to_string(), api: edited.clone() }, entry("c", "C")]
    );
    replace_provider(&mut entries, "missing", &edited);
    assert_eq!(entries.len(), 3);
    assert_eq!(entries[0], entry("a", "A"));
    assert_eq!(entries[2], entry("c", "C"));
}

#[test]
fn providers_and_names_are_listed_in_order() {
    let entries = vec![entry("a", "A"), entry("b", "B")];
    let listed = providers_of(&entries);
    assert_eq!(listed, vec![api("A", "secret"), api("B", "secret")]);
    assert_eq!(names_of(&listed), vec!["A".to_string(), "B".to_string()]);
}
