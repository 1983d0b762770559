use voice_vox::api::{
    APIError, AccentPhrases, AddCoreVersion, Answer, Api, AudioQuery, AudioQueryFromPreset, Body,
    CancellableSynthesis, ConnectWaves, CoreVersions, DeleteUserDictWord, DownloadableLibraries,
    EngineManifest, GuidedAccentPhrase, ImportUserDict, InitializeSpeaker, IsInitializedSpeaker, Method, MoraData,
    MoraLength, MoraPitch, MorpableTargets, MultiSynthesis, Presets, QueryParam, QueryValue, Request,
    RewriteUserDictWord, SpeakerInfo, Speakers, SupportedDevices, Synthesis, SynthesisMorphing,
    UserDict, UserDictWord, Version,
};
use voice_vox::api_schema;
use voice_vox::api_schema::{
    HttpValidationError, SpeakerInfoRaw, StyleInfoRaw, ValidationError, WordType,
};
use voice_vox::scalar::Scalar;

fn p(name: &str, value: QueryValue) -> QueryParam {
    QueryParam { name: name.to_string(), value }
}

fn text(name: &str, value: &str) -> QueryParam {
    p(name, QueryValue::Text(value.to_string()))
}

fn whole(name: &str, value: i32) -> QueryParam {
    p(name, QueryValue::Int(value))
}

fn flag(name: &str, value: bool) -> QueryParam {
    p(name, QueryValue::Flag(value))
}

fn expect(r: Request, method: Method, path: &str, query: Vec<QueryParam>, body: Body) {
    assert_eq!(r, Request { method, path: path.to_string(), query, body });
}

#[test]
fn audio_query_request() {
    let r = AudioQuery { text: "こんにちは".to_string(), speaker: 3, core_version: None }.request();
    expect(
        r,
        Method::Post,
        "/audio_query",
        vec![whole("speaker", 3), text("text", "こんにちは")],
        Body::Empty,
    );
    let r = AudioQuery { text: "t".to_string(), speaker: 1, core_version: Some("0.14".to_string()) }
        .request();
    assert_eq!(r.query, vec![whole("speaker", 1), text("core_version", "0.14"), text("text", "t")]);
    assert_eq!(r.url("localhost:50021"), "http://localhost:50021/audio_query");
}

#[test]
fn audio_query_from_preset_request() {
    let r = AudioQueryFromPreset { text: "t".to_string(), preset_id: 9, core_version: None }
        .request();
    expect(
        r,
        Method::Post,
        "/audio_query_from_preset",
        vec![whole("preset_id", 9), text("text", "t")],
        Body::Empty,
    );
}

#[test]
fn accent_phrases_request_defaults_to_plain_text() {
    let r = AccentPhrases { text: "t".to_string(), speaker: 2, is_kana: None, core_version: None }
        .request();
    expect(
        r,
        Method::Post,
        "/accent_phrases",
        vec![whole("speaker", 2), flag("is_kana", false), text("text", "t")],
        Body::Empty,
    );
    let r = AccentPhrases {
        text: "t".to_string(),
        speaker: 2,
        is_kana: Some(true),
        core_version: Some("v".to_string()),
    }
    .request();
    assert_eq!(
        r.query,
        vec![whole("speaker", 2), text("core_version", "v"), flag("is_kana", true), text("text", "t")]
    );
}

#[test]
fn mora_requests_carry_the_phrases() {
    let r = MoraData { speaker: 1, core_version: None, accent_phrases: vec![] }.request();
    expect(r, Method::Post, "/mora_data", vec![whole("speaker", 1)], Body::AccentPhrases(vec![]));
    let r = MoraLength { speaker: 1, core_version: None, accent_phrases: vec![] }.request();
    expect(r, Method::Post, "/mora_length", vec![whole("speaker", 1)], Body::AccentPhrases(vec![]));
    let r = MoraPitch { speaker: 1, core_version: None, accent_phrases: vec![] }.request();
    expect(r, Method::Post, "/mora_pitch", vec![whole("speaker", 1)], Body::AccentPhrases(vec![]));
}

#[test]
fn synthesis_requests() {
    let q = api_schema::AudioQuery::default;
    let r = Synthesis {
        speaker: 4,
        enable_interrogative_upspeak: None,
        core_version: None,
        audio_query: q(),
    }
    .request();
    expect(
        r,
        Method::Post,
        "/synthesis",
        vec![whole("speaker", 4), flag("enable_interrogative_upspeak", true)],
        Body::AudioQuery(q()),
    );
    let r = Synthesis {
        speaker: 4,
        enable_interrogative_upspeak: Some(false),
        core_version: Some("c".to_string()),
        audio_query: q(),
    }
    .request();
    assert_eq!(
        r.query,
        vec![
            whole("speaker", 4),
            flag("enable_interrogative_upspeak", false),
            text("core_version", "c")
        ]
    );
    let r = CancellableSynthesis { speaker: 4, core_version: None, audio_query: q() }.request();
    expect(
        r,
        Method::Post,
        "/cancellable_synthesis",
        vec![whole("speaker", 4)],
        Body::AudioQuery(q()),
    );
    let r = MultiSynthesis { speaker: 4, core_version: None, audio_query: vec![q(), q()] }.request();
    expect(
        r,
        Method::Post,
        "/multi_synthesis",
        vec![whole("speaker", 4)],
        Body::AudioQueries(vec![q(), q()]),
    );
    let rate = Scalar::from_bits(0.5f64.to_bits());
    let r = SynthesisMorphing {
        base_speaker: 1,
        target_speaker: 2,
        morph_rate: rate,
        core_version: None,
        audio_query: q(),
    }
    .request();
    expect(
        r,
        Method::Post,
        "/synthesis_morphing",
        vec![
            whole("base_speaker", 1),
            whole("target_speaker", 2),
            p("morph_rate", QueryValue::Number(rate)),
        ],
        Body::AudioQuery(q()),
    );
}

#[test]
fn connect_waves_sends_base64_and_reads_base64() {
    let r = ConnectWaves { waves: vec![b"one".to_vec(), b"three".to_vec()] }.request();
    expect(
        r,
        Method::Post,
        "/connect_waves",
        vec![],
        Body::Waves(vec!["b25l".to_string(), "dGhyZWU=".to_string()]),
    );
    assert_eq!(ConnectWaves::finish(&"aGVsbG8=".to_string()), b"hello".to_vec());
    assert_eq!(ConnectWaves::finish(&"<html>".to_string()), Vec::<u8>::new());
    assert_eq!(ConnectWaves::joined(None), Vec::<u8>::new());
    assert_eq!(ConnectWaves::joined(Some(vec![1, 2])), vec![1, 2]);
}

#[test]
fn plain_get_requests() {
    expect(Presets.request(), Method::Get, "/presets", vec![], Body::Empty);
    expect(Version.request(), Method::Get, "/version", vec![], Body::Empty);
    expect(CoreVersions.request(), Method::Get, "/core_versions", vec![], Body::Empty);
    expect(UserDict.request(), Method::Get, "/user_dict", vec![], Body::Empty);
    expect(EngineManifest.request(), Method::Get, "/engine_manifest", vec![], Body::Empty);
    expect(
        DownloadableLibraries.request(),
        Method::Get,
        "/downloadble_libraries",
        vec![],
        Body::Empty,
    );
    expect(Speakers { core_version: None }.request(), Method::Get, "/speakers", vec![], Body::Empty);
    expect(
        Speakers { core_version: Some("v".to_string()) }.request(),
        Method::Get,
        "/speakers",
        vec![text("core_version", "v")],
        Body::Empty,
    );
    expect(
        SupportedDevices { core_version: None }.request(),
        Method::Get,
        "/supported_devices",
        vec![],
        Body::Empty,
    );
    expect(
        SpeakerInfo { speaker_uuid: "u-1".to_string(), core_version: None }.request(),
        Method::Get,
        "/speaker_info",
        vec![text("speaker_uuid", "u-1")],
        Body::Empty,
    );
    expect(
        IsInitializedSpeaker { speaker: 5, core_version: None }.request(),
        Method::Get,
        "/is_initialized_speaker",
        vec![whole("speaker", 5)],
        Body::Empty,
    );
    expect(
        InitializeSpeaker { speaker: 5, core_version: None }.request(),
        Method::Post,
        "/initialize_speaker",
        vec![whole("speaker", 5)],
        Body::Empty,
    );
    expect(
        MorpableTargets { style_id: vec![1, 2], core_version: None }.request(),
        Method::Post,
        "/morphable_targets",
        vec![],
        Body::StyleIds(vec![1, 2]),
    );
}

#[test]
fn user_dictionary_requests() {
    let r = UserDictWord {
        surface: "s".to_string(),
        pronunciation: "p".to_string(),
        accent_type: 1,
        word_type: None,
        priority: None,
    }
    .request();
    expect(
        r,
        Method::Post,
        "/user_dict_word",
        vec![text("surface", "s"), text("pronunciation", "p"), whole("accent_type", 1)],
        Body::Empty,
    );
    let r = RewriteUserDictWord {
        uuid: "w-9".to_string(),
        surface: "s".to_string(),
        pronunciation: "p".to_string(),
        accent_type: 1,
        word_type: Some(WordType::Verb),
        priority: Some(7),
    }
    .request();
    expect(
        r,
        Method::Put,
        "/user_dict_word/w-9",
        vec![
            text("surface", "s"),
            text("pronunciation", "p"),
            whole("accent_type", 1),
            whole("priority", 7),
            text("word_type", "VERB"),
        ],
        Body::Empty,
    );
    expect(
        DeleteUserDictWord { uuid: "w-9".to_string() }.request(),
        Method::Delete,
        "/user_dict_word/w-9",
        vec![],
        Body::Empty,
    );
    expect(
        ImportUserDict { over_ride: true, dictionary: vec![] }.request(),
        Method::Post,
        "/import_user_dict",
        vec![],
        Body::Dictionary(vec![]),
    );
}

#[test]
fn answers_by_status() {
    assert_eq!(AudioQuery::answer(200), Answer::Success);
    assert_eq!(AudioQuery::answer(422), Answer::Validation);
    assert_eq!(AudioQuery::answer(400), Answer::Unknown);
    assert_eq!(AudioQuery::answer(204), Answer::Unknown);
    assert_eq!(AudioQuery::answer(500), Answer::Unknown);
    assert_eq!(AccentPhrases::answer(200), Answer::Success);
    assert_eq!(AccentPhrases::answer(400), Answer::KanaParse);
    assert_eq!(AccentPhrases::answer(422), Answer::Validation);
    assert_eq!(AccentPhrases::answer(404), Answer::Unknown);
    assert_eq!(InitializeSpeaker::answer(204), Answer::NoContent);
    assert_eq!(InitializeSpeaker::answer(200), Answer::Unknown);
    assert_eq!(InitializeSpeaker::answer(422), Answer::Validation);
    assert_eq!(Presets::answer(200), Answer::Success);
    assert_eq!(Presets::answer(422), Answer::Unknown);
    assert_eq!(Version::answer(200), Answer::Success);
    assert_eq!(CoreVersions::answer(201), Answer::Unknown);
    assert_eq!(UserDict::answer(422), Answer::Unknown);
    assert_eq!(DeleteUserDictWord::answer(204), Answer::NoContent);
    assert_eq!(RewriteUserDictWord::answer(422), Answer::Validation);
    assert_eq!(ImportUserDict::answer(204), Answer::NoContent);
    assert_eq!(UserDictWord::answer(200), Answer::Success);
    assert_eq!(Speakers::answer(422), Answer::Validation);
    assert_eq!(SpeakerInfo::answer(200), Answer::Success);
    assert_eq!(Synthesis::answer(200), Answer::Success);
    assert_eq!(ConnectWaves::answer(422), Answer::Validation);
    assert_eq!(MorpableTargets::answer(200), Answer::Success);
    for status in [0u16, 199, 201, 300, 421, 423, 65535] {
        assert_eq!(Answer::read_with_body(status), Answer::Unknown);
        assert_eq!(Answer::read_plain(status), Answer::Unknown);
        assert_eq!(Answer::read_without_body(status), Answer::Unknown);
        assert_eq!(Answer::read_with_kana(status), Answer::Unknown);
    }
}

#[test]
fn speaker_info_answer_is_decoded() {
    let raw = SpeakerInfoRaw {
        policy: "p".to_string(),
        portrait: "cG5n".to_string(),
        style_infos: vec![StyleInfoRaw { id: 1, icon: "aWNvbg==".to_string(), voice_samples: vec![] }],
    };
    let info = SpeakerInfo::finish(raw).unwrap();
    assert_eq!(info.portrait, b"png".to_vec());
    assert_eq!(info.style_infos[0].icon, b"icon".to_vec());
    let bad = SpeakerInfoRaw { policy: "p".to_string(), portrait: "#".to_string(), style_infos: vec![] };
    assert_eq!(SpeakerInfo::finish(bad), Err(APIError::Io));
}

#[test]
fn guided_accent_phrase_sends_a_form() {
    let r = GuidedAccentPhrase {
        core_version: Some("c".to_string()),
        text: "t".to_string(),
        speaker: 2,
        is_kana: true,
        audio_file: "a.wav".to_string(),
        normalize: false,
    }
    .request();
    expect(
        r,
        Method::Post,
        "/guided_accent_phrase",
        vec![text("core_version", "c")],
        Body::Form(vec![
            text("text", "t"),
            whole("speaker", 2),
            flag("is_kana", true),
            text("audio_file", "a.wav"),
            flag("normalize", false),
        ]),
    );
    assert_eq!(GuidedAccentPhrase::answer(200), Answer::Success);
    assert_eq!(GuidedAccentPhrase::answer(422), Answer::Validation);
}

#[test]
fn copies_of_errors_keep_only_validation() {
    let v = APIError::Validation(HttpValidationError { detail: vec![] });
    assert_eq!(v.clone(), v);
    let v = APIError::Validation(HttpValidationError {
        detail: vec![ValidationError {
            loc: vec!["query".to_string(), "speaker".to_string()],
            msg: "field required".to_string(),
            _type: "value_error.missing".to_string(),
        }],
    });
    assert_eq!(v.clone(), v);
    assert_eq!(APIError::Io.clone(), APIError::Unknown);
    assert_eq!(APIError::Reqwest.clone(), APIError::Unknown);
    assert_eq!(APIError::Unknown.clone(), APIError::Unknown);
}

#[test]
fn core_version_is_added_only_when_given() {
    let r = Request::new(Method::Get, "/x").add_core_version(&None);
    assert!(r.query.is_empty());
    let r = r.add_core_version(&Some("1".to_string())).integer("n", 2).body(Body::StyleIds(vec![3]));
    assert_eq!(r.query, vec![text("core_version", "1"), whole("n", 2)]);
    assert_eq!(r.body, Body::StyleIds(vec![3]));
    assert_eq!(r.method, Method::Get);
    assert_eq!(r.url("h"), "http://h/x");
}

#[test]
fn call_presets() {
    let presets = Presets;
    let request = presets.request();
    println!("{:?}", request);
    assert_eq!(request.url("localhost:50021"), "http://localhost:50021/presets");
    assert_eq!(Presets::answer(200), Answer::Success);
}

#[test]
fn call_version() {
    let version = Version;
    let request = version.request();
    println!("{:?}", request);
    assert_eq!(request.url("localhost:50021"), "http://localhost:50021/version");
    assert_eq!(Version::answer(200), Answer::Success);
}

#[test]
fn call_core_versions() {
    let version = CoreVersions;
    let request = version.request();
    println!("{:?}", request);
    assert_eq!(request.url("localhost:50021"), "http://localhost:50021/core_versions");
    assert_eq!(CoreVersions::answer(200), Answer::Success);
}

#[test]
fn call_speakers() {
    let speakers = Speakers { core_version: None };
    let request = speakers.request();
    println!("{:?}", request);
    assert_eq!(request.url("localhost:50021"), "http://localhost:50021/speakers");
    assert!(request.query.is_empty());
    assert_eq!(Speakers::answer(200), Answer::Success);
}

#[test]
fn call_speaker_info() {
    let speakers = vec![api_schema::Speaker {
        supported_features: api_schema::SpeakerSupportedFeatures {
            permitted_synthesis_morphing:
                api_schema::SpeakerSupportPermittedSynthesisMorphing::NOTHING,
        },
        name: "n".to_string(),
        speaker_uuid: "7ffcb7ce-00ec-4bdc-82cd-45a8889e43ff".to_string(),
        styles: vec![],
        version: None,
    }];
    let info = SpeakerInfo { speaker_uuid: speakers[0].speaker_uuid.clone(), core_version: None };
    let request = info.request();
    println!("{:?}", request);
    assert_eq!(request.url("localhost:50021"), "http://localhost:50021/speaker_info");
    assert_eq!(request.query, vec![text("speaker_uuid", "7ffcb7ce-00ec-4bdc-82cd-45a8889e43ff")]);
}

#[test]
fn call_supported_devices() {
    let supported_devices = SupportedDevices { core_version: None };
    let request = supported_devices.request();
    println!("{:?}", request);
    assert_eq!(request.url("localhost:50021"), "http://localhost:50021/supported_devices");
    assert_eq!(SupportedDevices::answer(200), Answer::Success);
}
