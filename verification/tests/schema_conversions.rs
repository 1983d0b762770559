use base64::Engine;
use voice_vox::api_schema::{
    AccentPhrase, AccentPhraseInProject, DownloadableLibraries, DownloadableLibrariesRaw,
    EngineManifest, EngineManifestRaw, Mora, MoraInProject, Speaker, SpeakerInfo, SpeakerInfoRaw,
    SpeakerStyle, SpeakerSupportPermittedSynthesisMorphing, SpeakerSupportedFeatures, StyleInfo,
    StyleInfoRaw, SupportedFeatures, TryFromRawError, WordType,
};
use voice_vox::scalar::Scalar;

fn num(x: f64) -> Scalar {
    Scalar::from_bits(x.to_bits())
}

fn b64(bytes: &[u8]) -> String {
    base64::engine::general_purpose::STANDARD.encode(bytes)
}

#[test]
fn scalars_are_bit_patterns() {
    assert_eq!(f64::from_bits(Scalar::zero().to_bits()), 0.0);
    assert_eq!(f64::from_bits(Scalar::one().to_bits()), 1.0);
    assert_eq!(f64::from_bits(Scalar::tenth().to_bits()), 0.1);
    assert_eq!(Scalar::from_bits(7).bits, 7);
    assert_ne!(num(0.0), num(-0.0));
}

#[test]
fn base64_is_the_standard_padded_alphabet() {
    let all: Vec<u8> = (0..=255).collect();
    let info = StyleInfo { id: 1, icon: all.clone(), voice_samples: vec![vec![], b"hello".to_vec()] };
    let raw = StyleInfoRaw::from(info.clone());
    assert_eq!(raw.icon, b64(&all));
    assert!(raw.icon.contains('+') && raw.icon.contains('/') && raw.icon.ends_with('='));
    assert_eq!(raw.voice_samples, vec!["".to_string(), "aGVsbG8=".to_string()]);
    assert_eq!(StyleInfo::try_from(raw), Ok(info));
    // text without its padding, or in another alphabet, is not taken
    for bad in ["aGVsbG8", "aGVsbG8-", "not base64!", "a"] {
        let raw = StyleInfoRaw { id: 1, icon: bad.to_string(), voice_samples: vec![] };
        assert_eq!(StyleInfo::try_from(raw), Err(TryFromRawError::Base64Decode), "{bad}");
    }
}

#[test]
fn mora_keeps_every_field() {
    let mora = Mora {
        text: "コ".to_string(),
        consonant: Some("k".to_string()),
        consonant_length: Some(num(0.05)),
        vowel: "o".to_string(),
        vowel_length: num(0.12),
        pitch: num(5.5),
    };
    let stored = MoraInProject::from(mora.clone());
    assert_eq!(stored.text, "コ");
    assert_eq!(stored.consonant, Some("k".to_string()));
    assert_eq!(stored.consonant_length, Some(num(0.05)));
    assert_eq!(stored.vowel, "o");
    assert_eq!(stored.vowel_length, num(0.12));
    assert_eq!(stored.pitch, num(5.5));
    assert_eq!(Mora::from(stored), mora);
}

#[test]
fn accent_phrase_keeps_its_moras_in_order() {
    let mora = |t: &str| Mora {
        text: t.to_string(),
        consonant: None,
        consonant_length: None,
        vowel: "a".to_string(),
        vowel_length: num(0.1),
        pitch: num(5.0),
    };
    let phrase = AccentPhrase {
        moras: vec![mora("a"), mora("b"), mora("c")],
        accent: 2,
        pause_mora: Some(mora("、")),
        is_interrogative: Some(true),
    };
    let stored = AccentPhraseInProject::from(phrase.clone());
    let texts: Vec<&str> = stored.moras.iter().map(|m| m.text.as_str()).collect();
    assert_eq!(texts, vec!["a", "b", "c"]);
    assert_eq!(stored.accent, 2);
    assert_eq!(stored.pause_mora.as_ref().unwrap().text, "、");
    assert_eq!(stored.is_interrogative, Some(true));
    assert_eq!(AccentPhrase::from(stored.clone()), phrase);
    assert_eq!(stored.clone(), stored);
}

#[test]
fn style_info_decodes_icon_and_keeps_good_samples() {
    let raw = StyleInfoRaw {
        id: 3,
        icon: b64(b"icon"),
        voice_samples: vec![b64(b"one"), "***".to_string(), b64(b"three")],
    };
    let info = StyleInfo::try_from(raw).unwrap();
    assert_eq!(info.id, 3);
    assert_eq!(info.icon, b"icon".to_vec());
    assert_eq!(info.voice_samples, vec![b"one".to_vec(), b"three".to_vec()]);
    let back = StyleInfoRaw::from(info);
    assert_eq!(back.id, 3);
    assert_eq!(back.icon, "aWNvbg==");
    assert_eq!(back.voice_samples, vec!["b25l".to_string(), "dGhyZWU=".to_string()]);
}

#[test]
fn style_info_with_bad_icon_is_an_error() {
    let raw = StyleInfoRaw { id: 3, icon: "%%%".to_string(), voice_samples: vec![b64(b"one")] };
    assert_eq!(StyleInfo::try_from(raw), Err(TryFromRawError::Base64Decode));
    assert_eq!(
        StyleInfo::from_decoded(1, None, vec![Some(vec![1])]),
        Err(TryFromRawError::Base64Decode)
    );
    assert_eq!(
        StyleInfo::from_decoded(1, Some(vec![9]), vec![None, Some(vec![1]), None, Some(vec![])]),
        Ok(StyleInfo { id: 1, icon: vec![9], voice_samples: vec![vec![1], vec![]] })
    );
}

#[test]
fn speaker_info_skips_styles_that_do_not_decode() {
    let raw = SpeakerInfoRaw {
        policy: "terms".to_string(),
        portrait: b64(b"png"),
        style_infos: vec![
            StyleInfoRaw { id: 1, icon: b64(b"i1"), voice_samples: vec![] },
            StyleInfoRaw { id: 2, icon: "!".to_string(), voice_samples: vec![] },
            StyleInfoRaw { id: 3, icon: b64(b"i3"), voice_samples: vec![b64(b"s")] },
        ],
    };
    let info = SpeakerInfo::try_from(raw).unwrap();
    assert_eq!(info.policy, "terms");
    assert_eq!(info.portrait, b"png".to_vec());
    assert_eq!(
        info.style_infos,
        vec![
            StyleInfo { id: 1, icon: b"i1".to_vec(), voice_samples: vec![] },
            StyleInfo { id: 3, icon: b"i3".to_vec(), voice_samples: vec![b"s".to_vec()] },
        ]
    );
    let back = SpeakerInfoRaw::from(info);
    assert_eq!(back.portrait, "cG5n");
    assert_eq!(back.style_infos.len(), 2);
    assert_eq!(back.style_infos[1].voice_samples, vec!["cw==".to_string()]);
    let bad = SpeakerInfoRaw { policy: String::new(), portrait: "?".to_string(), style_infos: vec![] };
    assert_eq!(SpeakerInfo::try_from(bad), Err(TryFromRawError::Base64Decode));
}

fn speaker() -> Speaker {
    Speaker {
        supported_features: SpeakerSupportedFeatures {
            permitted_synthesis_morphing: SpeakerSupportPermittedSynthesisMorphing::ALL,
        },
        name: "n".to_string(),
        speaker_uuid: "u".to_string(),
        styles: vec![SpeakerStyle { name: "s".to_string(), id: 1 }],
        version: None,
    }
}

#[test]
fn downloadable_library_decodes_its_speaker_info() {
    let raw = DownloadableLibrariesRaw {
        download_url: "http://x".to_string(),
        bytes: 12,
        speaker: speaker(),
        speaker_info: SpeakerInfoRaw {
            policy: "p".to_string(),
            portrait: b64(b"png"),
            style_infos: vec![],
        },
    };
    let lib = DownloadableLibraries::try_from(raw.clone()).unwrap();
    assert_eq!(lib.download_url, "http://x");
    assert_eq!(lib.bytes, 12);
    assert_eq!(lib.speaker, speaker());
    assert_eq!(lib.speaker_info.portrait, b"png".to_vec());
    let mut bad = raw;
    bad.speaker_info.portrait = "~".to_string();
    assert_eq!(DownloadableLibraries::try_from(bad), Err(TryFromRawError::Base64Decode));
}

#[test]
fn engine_manifest_decodes_its_icon() {
    let raw = EngineManifestRaw {
        manifest_version: "0.13".to_string(),
        name: "engine".to_string(),
        uuid: "id".to_string(),
        url: "http://e".to_string(),
        icon: b64(b"\x89PNG"),
        default_sampling_rate: 24000,
        term_of_service: "tos".to_string(),
        update_infos: vec![],
        dependency_licenses: vec![],
        downloadable_libraries_path: "p".to_string(),
        downloadable_libraries_url: "u".to_string(),
        supported_features: SupportedFeatures {
            adjust_mora_pitch: true,
            adjust_phoneme_length: true,
            adjust_speed_scale: true,
            adjust_pitch_scale: true,
            adjust_intonation_scale: true,
            adjust_volume_scale: true,
            interrogative_upspeak: false,
            synthesis_morphing: true,
        },
    };
    let manifest = EngineManifest::try_from(raw.clone()).unwrap();
    assert_eq!(manifest.icon, b"\x89PNG".to_vec());
    assert_eq!(manifest.name, "engine");
    assert_eq!(manifest.default_sampling_rate, 24000);
    assert_eq!(EngineManifestRaw::from(manifest), raw);
    let mut bad = raw;
    bad.icon = "@@".to_string();
    assert_eq!(EngineManifest::try_from(bad), Err(TryFromRawError::Base64Decode));
}

#[test]
fn word_types_have_the_engine_names() {
    assert_eq!(WordType::ProperNoun.to_string(), "PROPER_NOUN");
    assert_eq!(WordType::CommonNoun.to_string(), "COMMON_NOUN");
    assert_eq!(WordType::Verb.to_string(), "VERB");
    assert_eq!(WordType::Adjective.to_string(), "ADJECTIVE");
    assert_eq!(WordType::Suffix.to_string(), "SUFFIX");
}
