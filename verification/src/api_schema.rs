//! Values exchanged with the synthesis engine and stored in project files.
//!
//! The engine and the project file hold the same audio query in two
//! spellings. Each pair of records shares one view, so a conversion between
//! the two is stated as keeping the view.

use vstd::prelude::*;
use crate::scalar::Scalar;
use crate::codec::{base64_decoded, base64_encode, base64_encoded, decode};
use crate::views::{ok_view, opt_view, present, seq_ok_view, seq_opt_view, seq_view, successes};

verus! {

/// A copy of an optional string.
pub fn clone_opt_string(s: &Option<String>) -> (r: Option<String>)
    ensures
        r == *s,
{
    match s {
        Some(t) => Some(t.clone()),
        None => None,
    }
}

/// What a mora is, whichever record holds it.
pub struct MoraView {
    pub text: Seq<char>,
    pub consonant: Option<Seq<char>>,
    pub consonant_length: Option<Scalar>,
    pub vowel: Seq<char>,
    pub vowel_length: Scalar,
    pub pitch: Scalar,
}

/// One mora of an accent phrase, as the engine reports it.
#[derive(Debug, PartialEq)]
pub struct Mora {
    pub text: String,
    pub consonant: Option<String>,
    pub consonant_length: Option<Scalar>,
    pub vowel: String,
    pub vowel_length: Scalar,
    pub pitch: Scalar,
}

/// One mora of an accent phrase, as a project file stores it.
#[derive(Debug, PartialEq)]
pub struct MoraInProject {
    pub text: String,
    pub consonant: Option<String>,
    pub consonant_length: Option<Scalar>,
    pub vowel: String,
    pub vowel_length: Scalar,
    pub pitch: Scalar,
}

impl View for Mora {
    type V = MoraView;

    open spec fn view(&self) -> MoraView {
        MoraView {
            text: self.text@,
            consonant: opt_view(self.consonant),
            consonant_length: self.consonant_length,
            vowel: self.vowel@,
            vowel_length: self.vowel_length,
            pitch: self.pitch,
        }
    }
}

impl View for MoraInProject {
    type V = MoraView;

    open spec fn view(&self) -> MoraView {
        MoraView {
            text: self.text@,
            consonant: opt_view(self.consonant),
            consonant_length: self.consonant_length,
            vowel: self.vowel@,
            vowel_length: self.vowel_length,
            pitch: self.pitch,
        }
    }
}

impl Clone for Mora {
    fn clone(&self) -> (r: Self)
        ensures
            r == *self,
    {
        Mora {
            text: self.text.clone(),
            consonant: clone_opt_string(&self.consonant),
            consonant_length: self.consonant_length,
            vowel: self.vowel.clone(),
            vowel_length: self.vowel_length,
            pitch: self.pitch,
        }
    }
}

impl Clone for MoraInProject {
    fn clone(&self) -> (r: Self)
        ensures
            r == *self,
    {
        MoraInProject {
            text: self.text.clone(),
            consonant: clone_opt_string(&self.consonant),
            consonant_length: self.consonant_length,
            vowel: self.vowel.clone(),
            vowel_length: self.vowel_length,
            pitch: self.pitch,
        }
    }
}

impl From<Mora> for MoraInProject {
    fn from(mora: Mora) -> (r: Self)
        ensures
            r@ == mora@,
    {
        MoraInProject {
            text: mora.text,
            consonant: mora.consonant,
            consonant_length: mora.consonant_length,
            vowel: mora.vowel,
            vowel_length: mora.vowel_length,
            pitch: mora.pitch,
        }
    }
}

impl vstd::std_specs::convert::FromSpecImpl<Mora> for MoraInProject {
    open spec fn obeys_from_spec() -> bool {
        true
    }

    open spec fn from_spec(mora: Mora) -> MoraInProject {
        MoraInProject {
            text: mora.text,
            consonant: mora.consonant,
            consonant_length: mora.consonant_length,
            vowel: mora.vowel,
            vowel_length: mora.vowel_length,
            pitch: mora.pitch,
        }
    }
}

impl From<MoraInProject> for Mora {
    fn from(mora: MoraInProject) -> (r: Self)
        ensures
            r@ == mora@,
    {
        Mora {
            text: mora.text,
            consonant: mora.consonant,
            consonant_length: mora.consonant_length,
            vowel: mora.vowel,
            vowel_length: mora.vowel_length,
            pitch: mora.pitch,
        }
    }
}

impl vstd::std_specs::convert::FromSpecImpl<MoraInProject> for Mora {
    open spec fn obeys_from_spec() -> bool {
        true
    }

    open spec fn from_spec(mora: MoraInProject) -> Mora {
        Mora {
            text: mora.text,
            consonant: mora.consonant,
            consonant_length: mora.consonant_length,
            vowel: mora.vowel,
            vowel_length: mora.vowel_length,
            pitch: mora.pitch,
        }
    }
}

/// What an accent phrase is, whichever record holds it.
pub struct AccentPhraseView {
    pub moras: Seq<MoraView>,
    pub accent: i32,
    pub pause_mora: Option<MoraView>,
    pub is_interrogative: Option<bool>,
}

/// A run of moras with one accent, as the engine reports it.
#[derive(Debug, PartialEq)]
pub struct AccentPhrase {
    pub moras: Vec<Mora>,
    pub accent: i32,
    pub pause_mora: Option<Mora>,
    pub is_interrogative: Option<bool>,
}

/// A run of moras with one accent, as a project file stores it.
#[derive(Debug, PartialEq)]
pub struct AccentPhraseInProject {
    pub moras: Vec<MoraInProject>,
    pub accent: i32,
    pub pause_mora: Option<MoraInProject>,
    pub is_interrogative: Option<bool>,
}

impl View for AccentPhrase {
    type V = AccentPhraseView;

    open spec fn view(&self) -> AccentPhraseView {
        AccentPhraseView {
            moras: seq_view(self.moras@),
            accent: self.accent,
            pause_mora: opt_view(self.pause_mora),
            is_interrogative: self.is_interrogative,
        }
    }
}

impl View for AccentPhraseInProject {
    type V = AccentPhraseView;

    open spec fn view(&self) -> AccentPhraseView {
        AccentPhraseView {
            moras: seq_view(self.moras@),
            accent: self.accent,
            pause_mora: opt_view(self.pause_mora),
            is_interrogative: self.is_interrogative,
        }
    }
}

/// The moras of a project file, each in the engine's spelling.
pub fn moras_from_project(moras: &Vec<MoraInProject>) -> (r: Vec<Mora>)
    ensures
        seq_view(r@) == seq_view(moras@),
{
    let mut out: Vec<Mora> = Vec::new();
    let mut i: usize = 0;
    while i < moras.len()
        invariant
            i <= moras.len(),
            out.len() == i,
            forall|j: int| 0 <= j < i ==> out[j]@ == moras[j]@,
        decreases moras.len() - i,
    {
        out.push(Mora::from(moras[i].clone()));
        i += 1;
    }
    assert(seq_view(out@) =~= seq_view(moras@));
    out
}

/// The moras of the engine, each in the project file's spelling.
pub fn moras_into_project(moras: &Vec<Mora>) -> (r: Vec<MoraInProject>)
    ensures
        seq_view(r@) == seq_view(moras@),
{
    let mut out: Vec<MoraInProject> = Vec::new();
    let mut i: usize = 0;
    while i < moras.len()
        invariant
            i <= moras.len(),
            out.len() == i,
            forall|j: int| 0 <= j < i ==> out[j]@ == moras[j]@,
        decreases moras.len() - i,
    {
        out.push(MoraInProject::from(moras[i].clone()));
        i += 1;
    }
    assert(seq_view(out@) =~= seq_view(moras@));
    out
}

impl Clone for AccentPhrase {
    fn clone(&self) -> (r: Self)
        ensures
            r@ == self@,
    {
        let mut moras: Vec<Mora> = Vec::new();
        let mut i: usize = 0;
        while i < self.moras.len()
            invariant
                i <= self.moras.len(),
                moras.len() == i,
                forall|j: int| 0 <= j < i ==> moras[j] == self.moras[j],
            decreases self.moras.len() - i,
        {
            moras.push(self.moras[i].clone());
            i += 1;
        }
        assert(seq_view(moras@) =~= seq_view(self.moras@));
        AccentPhrase {
            moras,
            accent: self.accent,
            pause_mora: match &self.pause_mora {
                Some(m) => Some(m.clone()),
                None => None,
            },
            is_interrogative: self.is_interrogative,
        }
    }
}

impl Clone for AccentPhraseInProject {
    fn clone(&self) -> (r: Self)
        ensures
            r@ == self@,
    {
        let mut moras: Vec<MoraInProject> = Vec::new();
        let mut i: usize = 0;
        while i < self.moras.len()
            invariant
                i <= self.moras.len(),
                moras.len() == i,
                forall|j: int| 0 <= j < i ==> moras[j] == self.moras[j],
            decreases self.moras.len() - i,
        {
            moras.push(self.moras[i].clone());
            i += 1;
        }
        assert(seq_view(moras@) =~= seq_view(self.moras@));
        AccentPhraseInProject {
            moras,
            accent: self.accent,
            pause_mora: match &self.pause_mora {
                Some(m) => Some(m.clone()),
                None => None,
            },
            is_interrogative: self.is_interrogative,
        }
    }
}

impl From<AccentPhrase> for AccentPhraseInProject {
    fn from(ap: AccentPhrase) -> (r: Self)
        ensures
            r@ == ap@,
    {
        let moras = moras_into_project(&ap.moras);
        AccentPhraseInProject {
            moras,
            accent: ap.accent,
            pause_mora: match ap.pause_mora {
                Some(m) => Some(MoraInProject::from(m)),
                None => None,
            },
            is_interrogative: ap.is_interrogative,
        }
    }
}

impl vstd::std_specs::convert::FromSpecImpl<AccentPhrase> for AccentPhraseInProject {
    open spec fn obeys_from_spec() -> bool {
        false
    }

    open spec fn from_spec(ap: AccentPhrase) -> AccentPhraseInProject {
        arbitrary()
    }
}

impl From<AccentPhraseInProject> for AccentPhrase {
    fn from(ap: AccentPhraseInProject) -> (r: Self)
        ensures
            r@ == ap@,
    {
        let moras = moras_from_project(&ap.moras);
        AccentPhrase {
            moras,
            accent: ap.accent,
            pause_mora: match ap.pause_mora {
                Some(m) => Some(Mora::from(m)),
                None => None,
            },
            is_interrogative: ap.is_interrogative,
        }
    }
}

impl vstd::std_specs::convert::FromSpecImpl<AccentPhraseInProject> for AccentPhrase {
    open spec fn obeys_from_spec() -> bool {
        false
    }

    open spec fn from_spec(ap: AccentPhraseInProject) -> AccentPhrase {
        arbitrary()
    }
}

/// What an audio query of the engine is.
pub struct AudioQueryView {
    pub accent_phrases: Seq<AccentPhraseView>,
    pub speed_scale: Scalar,
    pub pitch_scale: Scalar,
    pub intonation_scale: Scalar,
    pub volume_scale: Scalar,
    pub pre_phoneme_length: Scalar,
    pub post_phoneme_length: Scalar,
    pub output_sampling_rate: i32,
    pub output_stereo: bool,
    pub kana: Option<Seq<char>>,
}

/// What an audio query of a project file is.
pub struct AudioQueryInProjectView {
    pub accent_phrases: Seq<AccentPhraseView>,
    pub speed_scale: Scalar,
    pub pitch_scale: Scalar,
    pub intonation_scale: Scalar,
    pub volume_scale: Scalar,
    pub pre_phoneme_length: Scalar,
    pub post_phoneme_length: Scalar,
    pub output_sampling_rate: i32,
    pub output_stereo: bool,
    pub kana: Seq<char>,
}

impl AudioQueryView {
    /// The query as a project file stores it: a missing reading becomes the
    /// empty text, and everything else is kept.
    pub open spec fn in_project(self) -> AudioQueryInProjectView {
        AudioQueryInProjectView {
            accent_phrases: self.accent_phrases,
            speed_scale: self.speed_scale,
            pitch_scale: self.pitch_scale,
            intonation_scale: self.intonation_scale,
            volume_scale: self.volume_scale,
            pre_phoneme_length: self.pre_phoneme_length,
            post_phoneme_length: self.post_phoneme_length,
            output_sampling_rate: self.output_sampling_rate,
            output_stereo: self.output_stereo,
            kana: match self.kana {
                Some(k) => k,
                None => Seq::empty(),
            },
        }
    }

    /// The query that the engine starts from when it has no text yet.
    pub open spec fn initial() -> AudioQueryView {
        AudioQueryView {
            accent_phrases: Seq::empty(),
            speed_scale: Scalar { bits: crate::scalar::ONE_BITS },
            pitch_scale: Scalar { bits: crate::scalar::ZERO_BITS },
            intonation_scale: Scalar { bits: crate::scalar::ONE_BITS },
            volume_scale: Scalar { bits: crate::scalar::ONE_BITS },
            pre_phoneme_length: Scalar { bits: crate::scalar::TENTH_BITS },
            post_phoneme_length: Scalar { bits: crate::scalar::TENTH_BITS },
            output_sampling_rate: 24000,
            output_stereo: false,
            kana: None,
        }
    }
}

impl AudioQueryInProjectView {
    /// The query as the engine takes it: the reading is always present, and
    /// everything else is kept.
    pub open spec fn for_engine(self) -> AudioQueryView {
        AudioQueryView {
            accent_phrases: self.accent_phrases,
            speed_scale: self.speed_scale,
            pitch_scale: self.pitch_scale,
            intonation_scale: self.intonation_scale,
            volume_scale: self.volume_scale,
            pre_phoneme_length: self.pre_phoneme_length,
            post_phoneme_length: self.post_phoneme_length,
            output_sampling_rate: self.output_sampling_rate,
            output_stereo: self.output_stereo,
            kana: Some(self.kana),
        }
    }
}

/// The parameters of one synthesis, as the engine takes and returns them.
#[derive(Debug, Clone, PartialEq)]
pub struct AudioQuery {
    pub accent_phrases: Vec<AccentPhrase>,
    pub speed_scale: Scalar,
    pub pitch_scale: Scalar,
    pub intonation_scale: Scalar,
    pub volume_scale: Scalar,
    pub pre_phoneme_length: Scalar,
    pub post_phoneme_length: Scalar,
    pub output_sampling_rate: i32,
    pub output_stereo: bool,
    pub kana: Option<String>,
}

/// The parameters of one synthesis, as a line of a project file holds them.
#[derive(Debug, Clone, PartialEq)]
pub struct AudioQueryInProject {
    pub accent_phrases: Vec<AccentPhraseInProject>,
    pub speed_scale: Scalar,
    pub pitch_scale: Scalar,
    pub intonation_scale: Scalar,
    pub volume_scale: Scalar,
    pub pre_phoneme_length: Scalar,
    pub post_phoneme_length: Scalar,
    pub output_sampling_rate: i32,
    pub output_stereo: bool,
    pub kana: String,
}

impl View for AudioQuery {
    type V = AudioQueryView;

    open spec fn view(&self) -> AudioQueryView {
        AudioQueryView {
            accent_phrases: seq_view(self.accent_phrases@),
            speed_scale: self.speed_scale,
            pitch_scale: self.pitch_scale,
            intonation_scale: self.intonation_scale,
            volume_scale: self.volume_scale,
            pre_phoneme_length: self.pre_phoneme_length,
            post_phoneme_length: self.post_phoneme_length,
            output_sampling_rate: self.output_sampling_rate,
            output_stereo: self.output_stereo,
            kana: opt_view(self.kana),
        }
    }
}

impl View for AudioQueryInProject {
    type V = AudioQueryInProjectView;

    open spec fn view(&self) -> AudioQueryInProjectView {
        AudioQueryInProjectView {
            accent_phrases: seq_view(self.accent_phrases@),
            speed_scale: self.speed_scale,
            pitch_scale: self.pitch_scale,
            intonation_scale: self.intonation_scale,
            volume_scale: self.volume_scale,
            pre_phoneme_length: self.pre_phoneme_length,
            post_phoneme_length: self.post_phoneme_length,
            output_sampling_rate: self.output_sampling_rate,
            output_stereo: self.output_stereo,
            kana: self.kana@,
        }
    }
}

impl Default for AudioQuery {
    fn default() -> (r: Self)
        ensures
            r@ == AudioQueryView::initial(),
    {
        let r = AudioQuery {
            accent_phrases: Vec::new(),
            speed_scale: Scalar::one(),
            pitch_scale: Scalar::zero(),
            intonation_scale: Scalar::one(),
            volume_scale: Scalar::one(),
            pre_phoneme_length: Scalar::tenth(),
            post_phoneme_length: Scalar::tenth(),
            output_sampling_rate: 24000,
            output_stereo: false,
            kana: None,
        };
        assert(seq_view(r.accent_phrases@) =~= Seq::<AccentPhraseView>::empty());
        r
    }
}

/// The accent phrases of the engine, each in the project file's spelling.
pub fn phrases_into_project(phrases: &Vec<AccentPhrase>) -> (r: Vec<AccentPhraseInProject>)
    ensures
        seq_view(r@) == seq_view(phrases@),
{
    let mut out: Vec<AccentPhraseInProject> = Vec::new();
    let mut i: usize = 0;
    while i < phrases.len()
        invariant
            i <= phrases.len(),
            out.len() == i,
            forall|j: int| 0 <= j < i ==> out[j]@ == phrases[j]@,
        decreases phrases.len() - i,
    {
        out.push(AccentPhraseInProject::from(phrases[i].clone()));
        i += 1;
    }
    assert(seq_view(out@) =~= seq_view(phrases@));
    out
}

/// The accent phrases of a project file, each in the engine's spelling.
pub fn phrases_from_project(phrases: &Vec<AccentPhraseInProject>) -> (r: Vec<AccentPhrase>)
    ensures
        seq_view(r@) == seq_view(phrases@),
{
    let mut out: Vec<AccentPhrase> = Vec::new();
    let mut i: usize = 0;
    while i < phrases.len()
        invariant
            i <= phrases.len(),
            out.len() == i,
            forall|j: int| 0 <= j < i ==> out[j]@ == phrases[j]@,
        decreases phrases.len() - i,
    {
        out.push(AccentPhrase::from(phrases[i].clone()));
        i += 1;
    }
    assert(seq_view(out@) =~= seq_view(phrases@));
    out
}

impl From<AudioQuery> for AudioQueryInProject {
    fn from(aq: AudioQuery) -> (r: Self)
        ensures
            r@ == aq@.in_project(),
    {
        let accent_phrases = phrases_into_project(&aq.accent_phrases);
        AudioQueryInProject {
            accent_phrases,
            speed_scale: aq.speed_scale,
            pitch_scale: aq.pitch_scale,
            intonation_scale: aq.intonation_scale,
            volume_scale: aq.volume_scale,
            pre_phoneme_length: aq.pre_phoneme_length,
            post_phoneme_length: aq.post_phoneme_length,
            output_sampling_rate: aq.output_sampling_rate,
            output_stereo: aq.output_stereo,
            kana: match aq.kana {
                Some(k) => k,
                None => String::new(),
            },
        }
    }
}

impl vstd::std_specs::convert::FromSpecImpl<AudioQuery> for AudioQueryInProject {
    open spec fn obeys_from_spec() -> bool {
        false
    }

    open spec fn from_spec(aq: AudioQuery) -> AudioQueryInProject {
        arbitrary()
    }
}

impl From<AudioQueryInProject> for AudioQuery {
    fn from(aq: AudioQueryInProject) -> (r: Self)
        ensures
            r@ == aq@.for_engine(),
    {
        let accent_phrases = phrases_from_project(&aq.accent_phrases);
        AudioQuery {
            accent_phrases,
            speed_scale: aq.speed_scale,
            pitch_scale: aq.pitch_scale,
            intonation_scale: aq.intonation_scale,
            volume_scale: aq.volume_scale,
            pre_phoneme_length: aq.pre_phoneme_length,
            post_phoneme_length: aq.post_phoneme_length,
            output_sampling_rate: aq.output_sampling_rate,
            output_stereo: aq.output_stereo,
            kana: Some(aq.kana),
        }
    }
}

impl vstd::std_specs::convert::FromSpecImpl<AudioQueryInProject> for AudioQuery {
    open spec fn obeys_from_spec() -> bool {
        false
    }

    open spec fn from_spec(aq: AudioQueryInProject) -> AudioQuery {
        arbitrary()
    }
}

/// Storing a query in a project file and reading it back changes nothing but
/// a missing reading, which comes back as the empty text.
pub proof fn lemma_project_round_trip(q: AudioQueryView)
    ensures
        q.in_project().for_engine() == (AudioQueryView {
            kana: Some(q.in_project().kana),
            ..q
        }),
        q.kana.is_some() ==> q.in_project().for_engine() == q,
{
}

/// Sending a stored query to the engine and storing it again changes nothing.
pub proof fn lemma_engine_round_trip(q: AudioQueryInProjectView)
    ensures
        q.for_engine().in_project() == q,
{
}

/// What a complaint of the engine is.
pub struct ValidationErrorView {
    pub loc: Seq<Seq<char>>,
    pub msg: Seq<char>,
    pub _type: Seq<char>,
}

/// One complaint of the engine about a request.
#[derive(Debug, PartialEq)]
pub struct ValidationError {
    /// Where in the request the fault lies.
    pub loc: Vec<String>,
    /// What the fault is.
    pub msg: String,
    /// The kind of the fault.
    pub _type: String,
}

impl View for ValidationError {
    type V = ValidationErrorView;

    open spec fn view(&self) -> ValidationErrorView {
        ValidationErrorView { loc: seq_view(self.loc@), msg: self.msg@, _type: self._type@ }
    }
}

/// A copy of the texts, in order.
pub fn clone_texts(texts: &Vec<String>) -> (r: Vec<String>)
    ensures
        seq_view(r@) == seq_view(texts@),
{
    let mut out: Vec<String> = Vec::new();
    let mut i: usize = 0;
    while i < texts.len()
        invariant
            i <= texts.len(),
            out.len() == i,
            forall|j: int| 0 <= j < i ==> out[j]@ == texts[j]@,
        decreases texts.len() - i,
    {
        out.push(texts[i].clone());
        i += 1;
    }
    assert(seq_view(out@) =~= seq_view(texts@));
    out
}

impl Clone for ValidationError {
    fn clone(&self) -> (r: ValidationError)
        ensures
            r@ == self@,
    {
        ValidationError {
            loc: clone_texts(&self.loc),
            msg: self.msg.clone(),
            _type: self._type.clone(),
        }
    }
}

/// The engine's answer to a request that it could not process.
#[derive(Debug, PartialEq)]
pub struct HttpValidationError {
    pub detail: Vec<ValidationError>,
}

impl View for HttpValidationError {
    type V = Seq<ValidationErrorView>;

    open spec fn view(&self) -> Seq<ValidationErrorView> {
        seq_view(self.detail@)
    }
}

impl Clone for HttpValidationError {
    fn clone(&self) -> (r: HttpValidationError)
        ensures
            r@ == self@,
    {
        let mut detail: Vec<ValidationError> = Vec::new();
        let mut i: usize = 0;
        while i < self.detail.len()
            invariant
                i <= self.detail.len(),
                detail.len() == i,
                forall|j: int| 0 <= j < i ==> detail[j]@ == self.detail[j]@,
            decreases self.detail.len() - i,
        {
            detail.push(self.detail[i].clone());
            i += 1;
        }
        assert(seq_view(detail@) =~= seq_view(self.detail@));
        HttpValidationError { detail }
    }
}

/// The engine's answer to a request for accent phrases.
#[derive(Debug, Clone, PartialEq)]
pub struct AccentPhrasesResponse {
    pub accent_phrases: Vec<AccentPhrase>,
}

/// The engine's answer to a reading that it could not parse.
#[derive(Debug, Clone, PartialEq)]
pub struct ParseKanaBadRequest {
    pub text: String,
    pub error_name: String,
    pub error_args: String,
}

/// The faults that the engine finds in a reading.
#[derive(Clone, Copy, Debug, PartialEq, Eq, Structural)]
pub enum ErrorName {
    UnknownText,
    AccentTop,
    AccentTwice,
    AccentNotFound,
    EmptyPhrase,
    InterrogationMarkNotAtEnd,
    InfiniteLoop,
}

/// A named set of synthesis parameters.
#[derive(Debug, Clone, PartialEq)]
pub struct Preset {
    pub id: i32,
    pub name: String,
    pub speaker_uuid: String,
    pub style_id: i32,
    pub speed_scale: Scalar,
    pub pitch_scale: Scalar,
    pub intonation_scale: Scalar,
    pub volume_scale: Scalar,
    pub pre_phoneme_length: Scalar,
    pub post_phoneme_length: Scalar,
}

/// Between which voices the engine lets a voice be morphed.
#[allow(non_camel_case_types)]
#[derive(Clone, Copy, Debug, PartialEq, Eq, Structural)]
pub enum SpeakerSupportPermittedSynthesisMorphing {
    ALL,
    SELF_ONLY,
    NOTHING,
}

/// What a character supports beyond plain synthesis.
#[derive(Debug, Clone, PartialEq)]
pub struct SpeakerSupportedFeatures {
    pub permitted_synthesis_morphing: SpeakerSupportPermittedSynthesisMorphing,
}

/// One voice style of a character.
#[derive(Debug, Clone, PartialEq)]
pub struct SpeakerStyle {
    /// The name of the style.
    pub name: String,
    /// The number by which requests name the style.
    pub id: i32,
}

/// A character of the engine.
#[derive(Debug, Clone, PartialEq)]
pub struct Speaker {
    pub supported_features: SpeakerSupportedFeatures,
    /// The name of the character.
    pub name: String,
    /// The key under which the engine holds the character's details.
    pub speaker_uuid: String,
    /// The voice styles of the character.
    pub styles: Vec<SpeakerStyle>,
    pub version: Option<String>,
}

/// Whether a voice style can be morphed into another.
#[derive(Clone, Copy, Debug, PartialEq, Eq, Structural)]
pub struct MorphableTargetInfo {
    pub is_morphable: bool,
}

/// The devices on which the engine can run.
#[derive(Debug, Clone, PartialEq)]
pub struct SupportedDevices {
    pub cpu: bool,
    pub cuda: bool,
    pub dml: Option<bool>,
}

/// What the engine can adjust.
#[derive(Debug, Clone, PartialEq)]
pub struct SupportedFeatures {
    pub adjust_mora_pitch: bool,
    pub adjust_phoneme_length: bool,
    pub adjust_speed_scale: bool,
    pub adjust_pitch_scale: bool,
    pub adjust_intonation_scale: bool,
    pub adjust_volume_scale: bool,
    pub interrogative_upspeak: bool,
    pub synthesis_morphing: bool,
}

/// One release of the engine.
#[derive(Debug, Clone, PartialEq)]
pub struct UpdateInfo {
    pub version: String,
    pub descriptions: Vec<String>,
    pub contributers: Vec<String>,
}

/// The licence of one dependency of the engine.
#[derive(Debug, Clone, PartialEq)]
pub struct LicenseInfo {
    pub name: String,
    pub version: String,
    pub license: String,
    pub text: String,
}

/// One word of the user dictionary, as the engine reports it.
#[derive(Debug, Clone, PartialEq)]
pub struct UserDictWord {
    pub surface: String,
    pub priority: i32,
    pub context_id: Option<i32>,
    pub part_of_speech: String,
    pub part_of_speech_detail_1: String,
    pub part_of_speech_detail_2: String,
    pub part_of_speech_detail_3: String,
    pub inflectional_type: String,
    pub inflectional_form: String,
    pub stem: String,
    pub yomi: String,
    pub pronunciation: String,
    pub accent_type: i32,
    pub mora_count: Option<i32>,
    pub accent_associative_rule: String,
}

/// The part of speech of a word of the user dictionary.
#[derive(Clone, Copy, Debug, PartialEq, Eq, Structural)]
pub enum WordType {
    ProperNoun,
    CommonNoun,
    Verb,
    Adjective,
    Suffix,
}

impl WordType {
    /// The name by which the engine knows the part of speech.
    pub open spec fn name_text(self) -> Seq<char> {
        match self {
            WordType::ProperNoun => "PROPER_NOUN"@,
            WordType::CommonNoun => "COMMON_NOUN"@,
            WordType::Verb => "VERB"@,
            WordType::Adjective => "ADJECTIVE"@,
            WordType::Suffix => "SUFFIX"@,
        }
    }

    /// The name by which the engine knows the part of speech.
    pub fn to_string(&self) -> (r: String)
        ensures
            r@ == self.name_text(),
    {
        match self {
            WordType::ProperNoun => "PROPER_NOUN",
            WordType::CommonNoun => "COMMON_NOUN",
            WordType::Verb => "VERB",
            WordType::Adjective => "ADJECTIVE",
            WordType::Suffix => "SUFFIX",
        }.to_owned()
    }
}

/// Why a record of base64 text could not be turned into one of bytes.
#[derive(Clone, Copy, Debug, PartialEq, Eq, Structural)]
pub enum TryFromRawError {
    /// A text that had to decode was not base64.
    Base64Decode,
}

/// What the details of a voice style are, images and sounds as bytes.
pub struct StyleInfoView {
    pub id: i32,
    pub icon: Seq<u8>,
    pub voice_samples: Seq<Seq<u8>>,
}

/// What the details of a voice style are, images and sounds as base64 text.
pub struct StyleInfoRawView {
    pub id: i32,
    pub icon: Seq<char>,
    pub voice_samples: Seq<Seq<char>>,
}

/// The details of a voice style as the engine sends them: the icon and the
/// voice samples are base64 text.
#[derive(Debug, Clone, PartialEq)]
pub struct StyleInfoRaw {
    pub id: i32,
    pub icon: String,
    pub voice_samples: Vec<String>,
}

/// The details of a voice style: the icon is an image file and each voice
/// sample a sound file.
#[derive(Debug, Clone, PartialEq)]
pub struct StyleInfo {
    /// The number by which requests name the style.
    pub id: i32,
    pub icon: Vec<u8>,
    pub voice_samples: Vec<Vec<u8>>,
}

impl View for StyleInfoRaw {
    type V = StyleInfoRawView;

    open spec fn view(&self) -> StyleInfoRawView {
        StyleInfoRawView {
            id: self.id,
            icon: self.icon@,
            voice_samples: seq_view(self.voice_samples@),
        }
    }
}

impl View for StyleInfo {
    type V = StyleInfoView;

    open spec fn view(&self) -> StyleInfoView {
        StyleInfoView {
            id: self.id,
            icon: self.icon@,
            voice_samples: seq_view(self.voice_samples@),
        }
    }
}

/// What each text decodes to, in order.
pub open spec fn all_decoded(texts: Seq<Seq<char>>) -> Seq<Option<Seq<u8>>> {
    Seq::new(texts.len(), |i: int| base64_decoded(texts[i]))
}

/// The base64 text of each run of bytes, in order.
pub open spec fn all_encoded(files: Seq<Seq<u8>>) -> Seq<Seq<char>> {
    Seq::new(files.len(), |i: int| base64_encoded(files[i]))
}

impl StyleInfoView {
    /// The details of a style, given what its icon and its voice samples
    /// decoded to. An icon that did not decode is an error. A voice sample
    /// that did not decode is left out.
    pub open spec fn from_decoded(
        id: i32,
        icon: Option<Seq<u8>>,
        voice_samples: Seq<Option<Seq<u8>>>,
    ) -> Result<StyleInfoView, TryFromRawError> {
        match icon {
            Some(icon) => Ok(StyleInfoView { id, icon, voice_samples: present(voice_samples) }),
            None => Err(TryFromRawError::Base64Decode),
        }
    }

    /// The details of a style with the icon and the voice samples encoded.
    pub open spec fn encoded(self) -> StyleInfoRawView {
        StyleInfoRawView {
            id: self.id,
            icon: base64_encoded(self.icon),
            voice_samples: all_encoded(self.voice_samples),
        }
    }
}

impl StyleInfoRawView {
    /// The details of a style with the icon and the voice samples decoded.
    pub open spec fn decoded(self) -> Result<StyleInfoView, TryFromRawError> {
        StyleInfoView::from_decoded(
            self.id,
            base64_decoded(self.icon),
            all_decoded(self.voice_samples),
        )
    }
}

/// Decodes each text, in order.
pub fn decode_all(texts: &Vec<String>) -> (r: Vec<Option<Vec<u8>>>)
    ensures
        seq_opt_view(r@) == all_decoded(seq_view(texts@)),
{
    let mut out: Vec<Option<Vec<u8>>> = Vec::new();
    let mut i: usize = 0;
    while i < texts.len()
        invariant
            i <= texts.len(),
            out.len() == i,
            forall|j: int| 0 <= j < i ==> opt_view(#[trigger] out[j]) == base64_decoded(texts[j]@),
        decreases texts.len() - i,
    {
        out.push(decode(&texts[i]));
        i += 1;
    }
    assert(seq_opt_view(out@) =~= all_decoded(seq_view(texts@)));
    out
}

/// Encodes each run of bytes, in order.
pub fn encode_all(files: &Vec<Vec<u8>>) -> (r: Vec<String>)
    ensures
        seq_view(r@) == all_encoded(seq_view(files@)),
{
    let mut out: Vec<String> = Vec::new();
    let mut i: usize = 0;
    while i < files.len()
        invariant
            i <= files.len(),
            out.len() == i,
            forall|j: int| 0 <= j < i ==> (#[trigger] out[j])@ == base64_encoded(files[j]@),
        decreases files.len() - i,
    {
        out.push(base64_encode(&files[i]));
        i += 1;
    }
    assert(seq_view(out@) =~= all_encoded(seq_view(files@)));
    out
}

/// The values that are there, in order.
pub fn keep_present(values: Vec<Option<Vec<u8>>>) -> (r: Vec<Vec<u8>>)
    ensures
        seq_view(r@) == present(seq_opt_view(values@)),
{
    let ghost all = seq_opt_view(values@);
    let mut values = values;
    let mut out: Vec<Vec<u8>> = Vec::new();
    let mut i: usize = 0;
    assert(all.take(0) =~= Seq::<Option<Seq<u8>>>::empty());
    while i < values.len()
        invariant
            i <= values.len(),
            values.len() == all.len(),
            forall|j: int| i <= j < values.len() ==> opt_view(#[trigger] values[j]) == all[j],
            seq_view(out@) == present(all.take(i as int)),
        decreases values.len() - i,
    {
        proof {
            assert(all.take(i + 1).drop_last() =~= all.take(i as int));
            assert(all.take(i + 1).last() == all[i as int]);
        }
        let mut taken: Option<Vec<u8>> = None;
        core::mem::swap(&mut values[i], &mut taken);
        match taken {
            Some(bytes) => {
                proof {
                    crate::views::lemma_seq_view_push(out@, bytes);
                }
                out.push(bytes);
            },
            None => {},
        }
        i += 1;
    }
    assert(all.take(all.len() as int) =~= all);
    out
}

impl StyleInfo {
    /// The details of a style, given what its icon and its voice samples
    /// decoded to. An icon that did not decode is an error. A voice sample
    /// that did not decode is left out.
    pub fn from_decoded(id: i32, icon: Option<Vec<u8>>, voice_samples: Vec<Option<Vec<u8>>>) -> (r:
        Result<StyleInfo, TryFromRawError>)
        ensures
            ok_view(r) == StyleInfoView::from_decoded(
                id,
                opt_view(icon),
                seq_opt_view(voice_samples@),
            ),
    {
        match icon {
            Some(icon) => Ok(StyleInfo { id, icon, voice_samples: keep_present(voice_samples) }),
            None => Err(TryFromRawError::Base64Decode),
        }
    }
}

impl TryFrom<StyleInfoRaw> for StyleInfo {
    type Error = TryFromRawError;

    fn try_from(raw: StyleInfoRaw) -> (r: Result<StyleInfo, TryFromRawError>)
        ensures
            ok_view(r) == raw@.decoded(),
    {
        let icon = decode(&raw.icon);
        let voice_samples = decode_all(&raw.voice_samples);
        StyleInfo::from_decoded(raw.id, icon, voice_samples)
    }
}

impl vstd::std_specs::convert::TryFromSpecImpl<StyleInfoRaw> for StyleInfo {
    open spec fn obeys_try_from_spec() -> bool {
        false
    }

    open spec fn try_from_spec(raw: StyleInfoRaw) -> Result<StyleInfo, TryFromRawError> {
        arbitrary()
    }
}

impl From<StyleInfo> for StyleInfoRaw {
    fn from(si: StyleInfo) -> (r: StyleInfoRaw)
        ensures
            r@ == si@.encoded(),
    {
        StyleInfoRaw {
            id: si.id,
            icon: base64_encode(&si.icon),
            voice_samples: encode_all(&si.voice_samples),
        }
    }
}

impl vstd::std_specs::convert::FromSpecImpl<StyleInfo> for StyleInfoRaw {
    open spec fn obeys_from_spec() -> bool {
        false
    }

    open spec fn from_spec(si: StyleInfo) -> StyleInfoRaw {
        arbitrary()
    }
}

/// What the details of a character are, images and sounds as bytes.
pub struct SpeakerInfoView {
    pub policy: Seq<char>,
    pub portrait: Seq<u8>,
    pub style_infos: Seq<StyleInfoView>,
}

/// What the details of a character are, images and sounds as base64 text.
pub struct SpeakerInfoRawView {
    pub policy: Seq<char>,
    pub portrait: Seq<char>,
    pub style_infos: Seq<StyleInfoRawView>,
}

/// The details of a character: the terms of use as markdown, the portrait as
/// an image file, and the details of each voice style.
#[derive(Debug, Clone, PartialEq)]
pub struct SpeakerInfo {
    pub policy: String,
    pub portrait: Vec<u8>,
    pub style_infos: Vec<StyleInfo>,
}

/// The details of a character as the engine sends them: the portrait is
/// base64 text.
#[derive(Debug, Clone, PartialEq)]
pub struct SpeakerInfoRaw {
    pub policy: String,
    pub portrait: String,
    pub style_infos: Vec<StyleInfoRaw>,
}

impl View for SpeakerInfo {
    type V = SpeakerInfoView;

    open spec fn view(&self) -> SpeakerInfoView {
        SpeakerInfoView {
            policy: self.policy@,
            portrait: self.portrait@,
            style_infos: seq_view(self.style_infos@),
        }
    }
}

impl View for SpeakerInfoRaw {
    type V = SpeakerInfoRawView;

    open spec fn view(&self) -> SpeakerInfoRawView {
        SpeakerInfoRawView {
            policy: self.policy@,
            portrait: self.portrait@,
            style_infos: seq_view(self.style_infos@),
        }
    }
}

/// What each record of a style decodes to, in order.
pub open spec fn all_styles_decoded(styles: Seq<StyleInfoRawView>) -> Seq<
    Result<StyleInfoView, TryFromRawError>,
> {
    Seq::new(styles.len(), |i: int| styles[i].decoded())
}

/// Each record of a style encoded, in order.
pub open spec fn all_styles_encoded(styles: Seq<StyleInfoView>) -> Seq<StyleInfoRawView> {
    Seq::new(styles.len(), |i: int| styles[i].encoded())
}

impl SpeakerInfoView {
    /// The details of a character, given what its portrait and the records of
    /// its styles decoded to. A portrait that did not decode is an error. A
    /// style whose record did not decode is left out.
    pub open spec fn from_decoded(
        policy: Seq<char>,
        portrait: Option<Seq<u8>>,
        style_infos: Seq<Result<StyleInfoView, TryFromRawError>>,
    ) -> Result<SpeakerInfoView, TryFromRawError> {
        match portrait {
            Some(portrait) => Ok(
                SpeakerInfoView { policy, portrait, style_infos: successes(style_infos) },
            ),
            None => Err(TryFromRawError::Base64Decode),
        }
    }

    /// The details of a character with the portrait and the styles encoded.
    pub open spec fn encoded(self) -> SpeakerInfoRawView {
        SpeakerInfoRawView {
            policy: self.policy,
            portrait: base64_encoded(self.portrait),
            style_infos: all_styles_encoded(self.style_infos),
        }
    }
}

impl SpeakerInfoRawView {
    /// The details of a character with the portrait and the styles decoded.
    pub open spec fn decoded(self) -> Result<SpeakerInfoView, TryFromRawError> {
        SpeakerInfoView::from_decoded(
            self.policy,
            base64_decoded(self.portrait),
            all_styles_decoded(self.style_infos),
        )
    }
}

/// The styles that decoded, in order.
pub fn keep_successes(styles: Vec<Result<StyleInfo, TryFromRawError>>) -> (r: Vec<StyleInfo>)
    ensures
        seq_view(r@) == successes(seq_ok_view(styles@)),
{
    let ghost all = seq_ok_view(styles@);
    let mut styles = styles;
    let mut out: Vec<StyleInfo> = Vec::new();
    let mut i: usize = 0;
    assert(all.take(0) =~= Seq::<Result<StyleInfoView, TryFromRawError>>::empty());
    while i < styles.len()
        invariant
            i <= styles.len(),
            styles.len() == all.len(),
            forall|j: int| i <= j < styles.len() ==> ok_view(#[trigger] styles[j]) == all[j],
            seq_view(out@) == successes(all.take(i as int)),
        decreases styles.len() - i,
    {
        proof {
            assert(all.take(i + 1).drop_last() =~= all.take(i as int));
            assert(all.take(i + 1).last() == all[i as int]);
        }
        let mut taken: Result<StyleInfo, TryFromRawError> = Err(TryFromRawError::Base64Decode);
        core::mem::swap(&mut styles[i], &mut taken);
        match taken {
            Ok(style) => {
                proof {
                    crate::views::lemma_seq_view_push(out@, style);
                }
                out.push(style);
            },
            Err(_) => {},
        }
        i += 1;
    }
    assert(all.take(all.len() as int) =~= all);
    out
}

/// Decodes each record of a style, in order.
pub fn decode_styles(styles: Vec<StyleInfoRaw>) -> (r: Vec<Result<StyleInfo, TryFromRawError>>)
    ensures
        seq_ok_view(r@) == all_styles_decoded(seq_view(styles@)),
{
    let mut out: Vec<Result<StyleInfo, TryFromRawError>> = Vec::new();
    let mut i: usize = 0;
    while i < styles.len()
        invariant
            i <= styles.len(),
            out.len() == i,
            forall|j: int| 0 <= j < i ==> ok_view(#[trigger] out[j]) == styles[j]@.decoded(),
        decreases styles.len() - i,
    {
        let icon = decode(&styles[i].icon);
        let voice_samples = decode_all(&styles[i].voice_samples);
        out.push(StyleInfo::from_decoded(styles[i].id, icon, voice_samples));
        i += 1;
    }
    assert(seq_ok_view(out@) =~= all_styles_decoded(seq_view(styles@)));
    out
}

/// Encodes each record of a style, in order.
pub fn encode_styles(styles: &Vec<StyleInfo>) -> (r: Vec<StyleInfoRaw>)
    ensures
        seq_view(r@) == all_styles_encoded(seq_view(styles@)),
{
    let mut out: Vec<StyleInfoRaw> = Vec::new();
    let mut i: usize = 0;
    while i < styles.len()
        invariant
            i <= styles.len(),
            out.len() == i,
            forall|j: int| 0 <= j < i ==> (#[trigger] out[j])@ == styles[j]@.encoded(),
        decreases styles.len() - i,
    {
        out.push(
            StyleInfoRaw {
                id: styles[i].id,
                icon: base64_encode(&styles[i].icon),
                voice_samples: encode_all(&styles[i].voice_samples),
            },
        );
        i += 1;
    }
    assert(seq_view(out@) =~= all_styles_encoded(seq_view(styles@)));
    out
}

impl SpeakerInfo {
    /// The details of a character, given what its portrait and the records of
    /// its styles decoded to. A portrait that did not decode is an error. A
    /// style whose record did not decode is left out.
    pub fn from_decoded(
        policy: String,
        portrait: Option<Vec<u8>>,
        style_infos: Vec<Result<StyleInfo, TryFromRawError>>,
    ) -> (r: Result<SpeakerInfo, TryFromRawError>)
        ensures
            ok_view(r) == SpeakerInfoView::from_decoded(
                policy@,
                opt_view(portrait),
                seq_ok_view(style_infos@),
            ),
    {
        match portrait {
            Some(portrait) => Ok(
                SpeakerInfo { policy, portrait, style_infos: keep_successes(style_infos) },
            ),
            None => Err(TryFromRawError::Base64Decode),
        }
    }
}

impl TryFrom<SpeakerInfoRaw> for SpeakerInfo {
    type Error = TryFromRawError;

    fn try_from(raw: SpeakerInfoRaw) -> (r: Result<SpeakerInfo, TryFromRawError>)
        ensures
            ok_view(r) == raw@.decoded(),
    {
        let portrait = decode(&raw.portrait);
        let style_infos = decode_styles(raw.style_infos);
        SpeakerInfo::from_decoded(raw.policy, portrait, style_infos)
    }
}

impl vstd::std_specs::convert::TryFromSpecImpl<SpeakerInfoRaw> for SpeakerInfo {
    open spec fn obeys_try_from_spec() -> bool {
        false
    }

    open spec fn try_from_spec(raw: SpeakerInfoRaw) -> Result<SpeakerInfo, TryFromRawError> {
        arbitrary()
    }
}

impl From<SpeakerInfo> for SpeakerInfoRaw {
    fn from(si: SpeakerInfo) -> (r: SpeakerInfoRaw)
        ensures
            r@ == si@.encoded(),
    {
        SpeakerInfoRaw {
            portrait: base64_encode(&si.portrait),
            style_infos: encode_styles(&si.style_infos),
            policy: si.policy,
        }
    }
}

impl vstd::std_specs::convert::FromSpecImpl<SpeakerInfo> for SpeakerInfoRaw {
    open spec fn obeys_from_spec() -> bool {
        false
    }

    open spec fn from_spec(si: SpeakerInfo) -> SpeakerInfoRaw {
        arbitrary()
    }
}

/// A voice library that can be downloaded.
#[derive(Debug, Clone, PartialEq)]
pub struct DownloadableLibraries {
    pub download_url: String,
    pub bytes: usize,
    pub speaker: Speaker,
    pub speaker_info: SpeakerInfo,
}

/// A voice library that can be downloaded, as the engine sends it.
#[derive(Debug, Clone, PartialEq)]
pub struct DownloadableLibrariesRaw {
    pub download_url: String,
    pub bytes: usize,
    pub speaker: Speaker,
    pub speaker_info: SpeakerInfoRaw,
}

impl DownloadableLibraries {
    /// The library, given what the details of its character decoded to: an
    /// error where they did not decode, and else the library with everything
    /// else as it came.
    pub fn from_decoded(
        download_url: String,
        bytes: usize,
        speaker: Speaker,
        speaker_info: Result<SpeakerInfo, TryFromRawError>,
    ) -> (r: Result<DownloadableLibraries, TryFromRawError>)
        ensures
            match speaker_info {
                Ok(info) => r == Ok::<DownloadableLibraries, TryFromRawError>(
                    DownloadableLibraries { download_url, bytes, speaker, speaker_info: info },
                ),
                Err(e) => r == Err::<DownloadableLibraries, TryFromRawError>(e),
            },
    {
        match speaker_info {
            Ok(speaker_info) => Ok(
                DownloadableLibraries { download_url, bytes, speaker, speaker_info },
            ),
            Err(e) => Err(e),
        }
    }
}

impl TryFrom<DownloadableLibrariesRaw> for DownloadableLibraries {
    type Error = TryFromRawError;

    fn try_from(value: DownloadableLibrariesRaw) -> (r: Result<
        DownloadableLibraries,
        TryFromRawError,
    >)
        ensures
            match value.speaker_info@.decoded() {
                Ok(info) => r.is_ok() && r.unwrap().speaker_info@ == info && r.unwrap().download_url
                    == value.download_url && r.unwrap().bytes == value.bytes && r.unwrap().speaker
                    == value.speaker,
                Err(e) => r == Err::<DownloadableLibraries, TryFromRawError>(e),
            },
    {
        let speaker_info = SpeakerInfo::try_from(value.speaker_info);
        DownloadableLibraries::from_decoded(
            value.download_url,
            value.bytes,
            value.speaker,
            speaker_info,
        )
    }
}

impl vstd::std_specs::convert::TryFromSpecImpl<DownloadableLibrariesRaw> for DownloadableLibraries {
    open spec fn obeys_try_from_spec() -> bool {
        false
    }

    open spec fn try_from_spec(value: DownloadableLibrariesRaw) -> Result<
        DownloadableLibraries,
        TryFromRawError,
    > {
        arbitrary()
    }
}

/// What the engine says of itself, the icon as base64 text.
#[derive(Debug, Clone, PartialEq)]
pub struct EngineManifestRaw {
    pub manifest_version: String,
    pub name: String,
    pub uuid: String,
    pub url: String,
    pub icon: String,
    pub default_sampling_rate: i32,
    pub term_of_service: String,
    pub update_infos: Vec<UpdateInfo>,
    pub dependency_licenses: Vec<LicenseInfo>,
    pub downloadable_libraries_path: String,
    pub downloadable_libraries_url: String,
    pub supported_features: SupportedFeatures,
}

/// What the engine says of itself, the icon as an image file.
#[derive(Debug, Clone, PartialEq)]
pub struct EngineManifest {
    pub manifest_version: String,
    pub name: String,
    pub uuid: String,
    pub url: String,
    pub icon: Vec<u8>,
    pub default_sampling_rate: i32,
    pub term_of_service: String,
    pub update_infos: Vec<UpdateInfo>,
    pub dependency_licenses: Vec<LicenseInfo>,
    pub downloadable_libraries_path: String,
    pub downloadable_libraries_url: String,
    pub supported_features: SupportedFeatures,
}

impl EngineManifest {
    /// Whether `self` is `raw` but for the icon.
    pub open spec fn same_but_icon(self, raw: EngineManifestRaw) -> bool {
        &&& self.manifest_version == raw.manifest_version
        &&& self.name == raw.name
        &&& self.uuid == raw.uuid
        &&& self.url == raw.url
        &&& self.default_sampling_rate == raw.default_sampling_rate
        &&& self.term_of_service == raw.term_of_service
        &&& self.update_infos == raw.update_infos
        &&& self.dependency_licenses == raw.dependency_licenses
        &&& self.downloadable_libraries_path == raw.downloadable_libraries_path
        &&& self.downloadable_libraries_url == raw.downloadable_libraries_url
        &&& self.supported_features == raw.supported_features
    }

    /// The manifest, given what its icon decoded to: an error where the icon
    /// did not decode, and else the manifest with the decoded icon and
    /// everything else as it came.
    pub fn from_decoded(raw: EngineManifestRaw, icon: Option<Vec<u8>>) -> (r: Result<
        EngineManifest,
        TryFromRawError,
    >)
        ensures
            match icon {
                Some(bytes) => r.is_ok() && r.unwrap().icon == bytes && r.unwrap().same_but_icon(
                    raw,
                ),
                None => r == Err::<EngineManifest, TryFromRawError>(TryFromRawError::Base64Decode),
            },
    {
        match icon {
            Some(icon) => Ok(
                EngineManifest {
                    manifest_version: raw.manifest_version,
                    name: raw.name,
                    uuid: raw.uuid,
                    url: raw.url,
                    icon,
                    default_sampling_rate: raw.default_sampling_rate,
                    term_of_service: raw.term_of_service,
                    update_infos: raw.update_infos,
                    dependency_licenses: raw.dependency_licenses,
                    downloadable_libraries_path: raw.downloadable_libraries_path,
                    downloadable_libraries_url: raw.downloadable_libraries_url,
                    supported_features: raw.supported_features,
                },
            ),
            None => Err(TryFromRawError::Base64Decode),
        }
    }
}

impl TryFrom<EngineManifestRaw> for EngineManifest {
    type Error = TryFromRawError;

    fn try_from(raw: EngineManifestRaw) -> (r: Result<EngineManifest, TryFromRawError>)
        ensures
            match base64_decoded(raw.icon@) {
                Some(bytes) => r.is_ok() && r.unwrap().icon@ == bytes && r.unwrap().same_but_icon(
                    raw,
                ),
                None => r == Err::<EngineManifest, TryFromRawError>(TryFromRawError::Base64Decode),
            },
    {
        let icon = decode(&raw.icon);
        EngineManifest::from_decoded(raw, icon)
    }
}

impl vstd::std_specs::convert::TryFromSpecImpl<EngineManifestRaw> for EngineManifest {
    open spec fn obeys_try_from_spec() -> bool {
        false
    }

    open spec fn try_from_spec(raw: EngineManifestRaw) -> Result<EngineManifest, TryFromRawError> {
        arbitrary()
    }
}

impl From<EngineManifest> for EngineManifestRaw {
    fn from(rustic: EngineManifest) -> (r: EngineManifestRaw)
        ensures
            r.icon@ == base64_encoded(rustic.icon@),
            rustic.same_but_icon(r),
    {
        EngineManifestRaw {
            icon: base64_encode(&rustic.icon),
            manifest_version: rustic.manifest_version,
            name: rustic.name,
            uuid: rustic.uuid,
            url: rustic.url,
            default_sampling_rate: rustic.default_sampling_rate,
            term_of_service: rustic.term_of_service,
            update_infos: rustic.update_infos,
            dependency_licenses: rustic.dependency_licenses,
            downloadable_libraries_path: rustic.downloadable_libraries_path,
            downloadable_libraries_url: rustic.downloadable_libraries_url,
            supported_features: rustic.supported_features,
        }
    }
}

impl vstd::std_specs::convert::FromSpecImpl<EngineManifest> for EngineManifestRaw {
    open spec fn obeys_from_spec() -> bool {
        false
    }

    open spec fn from_spec(rustic: EngineManifest) -> EngineManifestRaw {
        arbitrary()
    }
}

} // verus!
