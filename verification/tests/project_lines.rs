use voice_vox::api_schema::{AudioQuery, AudioQueryInProject};
use voice_vox::project::{AudioItem, Field, Value, VoiceVoxProject};
use voice_vox::scalar::Scalar;

fn num(x: f64) -> Scalar {
    Scalar::from_bits(x.to_bits())
}

#[test]
fn initial_line_has_the_engine_defaults() {
    let item = AudioItem::initial();
    assert_eq!(item.text, "");
    assert_eq!(item.style_id, 0);
    assert_eq!(item.preset_key, None);
    let q = item.query.unwrap();
    assert_eq!(f64::from_bits(q.speed_scale.to_bits()), 1.0);
    assert_eq!(f64::from_bits(q.pitch_scale.to_bits()), 0.0);
    assert_eq!(f64::from_bits(q.intonation_scale.to_bits()), 1.0);
    assert_eq!(f64::from_bits(q.volume_scale.to_bits()), 1.0);
    assert_eq!(f64::from_bits(q.pre_phoneme_length.to_bits()), 0.1);
    assert_eq!(f64::from_bits(q.post_phoneme_length.to_bits()), 0.1);
    assert_eq!(q.output_sampling_rate, 24000);
    assert!(!q.output_stereo);
    assert_eq!(q.kana, "");
    assert!(q.accent_phrases.is_empty());
}

#[test]
fn default_project_has_one_line_under_a_random_key() {
    let project = VoiceVoxProject::default();
    assert_eq!(project.app_version(), "0.13.3");
    assert_eq!(project.audio_keys().len(), 1);
    let key = project.audio_keys()[0].clone();
    assert_eq!(key.chars().count(), 36);
    assert_eq!(project.get(&key), Some(&AudioItem::initial()));
    assert_eq!(project.entries().len(), 1);
    let other = VoiceVoxProject::default();
    assert_ne!(other.audio_keys()[0], key);
}

#[test]
fn add_audio_cell_appends_an_empty_line() {
    let mut project = VoiceVoxProject::default();
    assert!(project.add_audio_cell());
    assert_eq!(project.audio_keys().len(), 2);
    let key = project.audio_keys()[1].clone();
    assert_ne!(key, project.audio_keys()[0]);
    assert_eq!(project.get(&key), Some(&AudioItem::initial()));
}

#[test]
fn add_line_refuses_a_taken_key() {
    let mut project = VoiceVoxProject::new("v".to_string());
    assert!(project.add_line("k".to_string(), AudioItem::initial()));
    let other = AudioItem { text: "x".to_string(), style_id: 1, query: None, preset_key: None };
    assert!(!project.add_line("k".to_string(), other));
    assert_eq!(project.audio_keys(), &vec!["k".to_string()]);
    assert_eq!(project.get(&"k".to_string()), Some(&AudioItem::initial()));
    assert!(project.contains_key(&"k".to_string()));
    assert!(!project.contains_key(&"z".to_string()));
    assert_eq!(project.get(&"z".to_string()), None);
}

#[test]
fn insert_replaces_and_hands_back_the_old_line() {
    let mut project = VoiceVoxProject::new("v".to_string());
    let a = AudioItem { text: "a".to_string(), style_id: 1, query: None, preset_key: None };
    let b = AudioItem {
        text: "b".to_string(),
        style_id: 2,
        query: None,
        preset_key: Some("p".to_string()),
    };
    assert_eq!(project.insert("k".to_string(), a), None);
    assert_eq!(project.insert("j".to_string(), AudioItem::initial()), None);
    let old = project.insert("k".to_string(), b);
    assert_eq!(old.unwrap().text, "a");
    assert_eq!(project.get(&"k".to_string()).unwrap().text, "b");
    assert_eq!(project.get(&"j".to_string()), Some(&AudioItem::initial()));
    assert_eq!(project.entries().len(), 2);
    assert!(project.audio_keys().is_empty());
    project.push_key("k".to_string());
    assert_eq!(project.audio_keys(), &vec!["k".to_string()]);
}

#[test]
fn set_field_writes_only_fitting_values() {
    let mut project = VoiceVoxProject::new("v".to_string());
    project.add_line("k".to_string(), AudioItem::initial());
    let k = "k".to_string();
    project.set_field(&k, Field::Text, Value::Text("hello".to_string()));
    assert_eq!(project.field(&k, Field::Text), Some(Value::Text("hello".to_string())));
    project.set_field(&k, Field::Text, Value::Number(num(1.0)));
    assert_eq!(project.field(&k, Field::Text), Some(Value::Text("hello".to_string())));
    project.set_field(&k, Field::Pitch, Value::Text("no".to_string()));
    assert_eq!(project.field(&k, Field::Pitch), Some(Value::Number(num(0.0))));
    project.set_field(&k, Field::Style, Value::Number(num(2.0)));
    assert_eq!(project.field(&k, Field::Style), Some(Value::Style(0)));
    project.set_field(&k, Field::Style, Value::Style(5));
    assert_eq!(project.field(&k, Field::Style), Some(Value::Style(5)));
    project.set_field(&k, Field::Volume, Value::Number(num(0.25)));
    assert_eq!(project.field(&k, Field::Volume), Some(Value::Number(num(0.25))));
    assert_eq!(project.field(&k, Field::Speed), Some(Value::Number(num(1.0))));
    project.set_field(&"missing".to_string(), Field::Volume, Value::Number(num(0.5)));
    assert_eq!(project.entries().len(), 1);
}

#[test]
fn first_entry_of_a_key_is_the_line() {
    let a = AudioItem { text: "a".to_string(), style_id: 1, query: None, preset_key: None };
    let b = AudioItem { text: "b".to_string(), style_id: 2, query: None, preset_key: None };
    let mut project = VoiceVoxProject::from_parts(
        "v".to_string(),
        vec!["k".to_string()],
        vec![("k".to_string(), a), ("k".to_string(), b)],
    );
    assert_eq!(project.get(&"k".to_string()).unwrap().text, "a");
    project.set_field(&"k".to_string(), Field::Text, Value::Text("c".to_string()));
    let (version, keys, entries) = project.into_parts();
    assert_eq!(version, "v");
    assert_eq!(keys, vec!["k".to_string()]);
    assert_eq!(entries[0].1.text, "c");
    assert_eq!(entries[1].1.text, "b");
}

#[test]
fn query_conversion_keeps_everything_but_a_missing_reading() {
    let mut q = AudioQuery::default();
    q.pitch_scale = num(0.07);
    q.kana = None;
    let p = AudioQueryInProject::from(q);
    assert_eq!(p.kana, "");
    assert_eq!(p.pitch_scale, num(0.07));
    let back = AudioQuery::from(p);
    assert_eq!(back.kana, Some(String::new()));
    assert_eq!(back.pitch_scale, num(0.07));
    assert_eq!(back.output_sampling_rate, 24000);
}

#[test]
fn add_audio_cell_to_an_empty_project_succeeds() {
    let mut project = VoiceVoxProject::new("v".to_string());
    assert!(project.add_audio_cell());
    assert_eq!(project.audio_keys().len(), 1);
    assert_eq!(project.entries().len(), 1);
    let key = project.audio_keys()[0].clone();
    assert_eq!(project.get(&key), Some(&AudioItem::initial()));
    assert_eq!(project.app_version(), "v");
}
