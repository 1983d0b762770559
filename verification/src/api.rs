//! The requests that the editor sends to the synthesis engine, and what each
//! status of an answer means.
//!
//! Nothing here talks to the engine. A request is described as plain data: its
//! method, its path, its query parameters in order, and its body. Whoever
//! sends it hands back the status of the answer, and is told how to read the
//! body.

use vstd::prelude::*;
use vstd::string::StringExecFns;
use crate::api_schema;
use crate::api_schema::{
    all_encoded, encode_all, AccentPhrase, AccentPhraseView, AudioQueryView, HttpValidationError,
    ParseKanaBadRequest, TryFromRawError, WordType,
};
use crate::codec::{base64_decoded, decode};
use crate::scalar::Scalar;
use crate::views::{opt_view, seq_view};

verus! {

/// The version of the synthesis core that a request asks for, if it asks for
/// one.
pub type CoreVersion = Option<String>;

/// The method of a request.
#[derive(Clone, Copy, Debug, PartialEq, Eq, Structural)]
pub enum Method {
    Get,
    Post,
    Put,
    Delete,
}

/// What the value of a query parameter is.
pub enum QueryValueView {
    Int(i32),
    Flag(bool),
    Number(Scalar),
    Text(Seq<char>),
}

/// The value of a query parameter.
#[derive(Debug, Clone, PartialEq)]
pub enum QueryValue {
    Int(i32),
    Flag(bool),
    Number(Scalar),
    Text(String),
}

impl View for QueryValue {
    type V = QueryValueView;

    open spec fn view(&self) -> QueryValueView {
        match self {
            QueryValue::Int(i) => QueryValueView::Int(*i),
            QueryValue::Flag(b) => QueryValueView::Flag(*b),
            QueryValue::Number(n) => QueryValueView::Number(*n),
            QueryValue::Text(t) => QueryValueView::Text(t@),
        }
    }
}

/// What a query parameter is: its name and its value.
pub struct QueryParamView {
    pub name: Seq<char>,
    pub value: QueryValueView,
}

/// One query parameter of a request.
#[derive(Debug, Clone, PartialEq)]
pub struct QueryParam {
    pub name: String,
    pub value: QueryValue,
}

impl View for QueryParam {
    type V = QueryParamView;

    open spec fn view(&self) -> QueryParamView {
        QueryParamView { name: self.name@, value: self.value@ }
    }
}

/// The parameter `name` with a whole number for its value.
pub open spec fn int_param(name: Seq<char>, value: i32) -> QueryParamView {
    QueryParamView { name, value: QueryValueView::Int(value) }
}

/// The parameter `name` with a truth value for its value.
pub open spec fn flag_param(name: Seq<char>, value: bool) -> QueryParamView {
    QueryParamView { name, value: QueryValueView::Flag(value) }
}

/// The parameter `name` with a real number for its value.
pub open spec fn number_param(name: Seq<char>, value: Scalar) -> QueryParamView {
    QueryParamView { name, value: QueryValueView::Number(value) }
}

/// The parameter `name` with a text for its value.
pub open spec fn text_param(name: Seq<char>, value: Seq<char>) -> QueryParamView {
    QueryParamView { name, value: QueryValueView::Text(value) }
}

/// What the body of a request is.
pub enum BodyView {
    Empty,
    AccentPhrases(Seq<AccentPhraseView>),
    AudioQuery(AudioQueryView),
    AudioQueries(Seq<AudioQueryView>),
    Waves(Seq<Seq<char>>),
    Dictionary(Seq<(String, api_schema::UserDictWord)>),
    StyleIds(Seq<i32>),
    Form(Seq<QueryParamView>),
}

/// The body of a request. All but a form are sent as JSON.
#[derive(Debug, Clone, PartialEq)]
pub enum Body {
    /// No body.
    Empty,
    /// A list of accent phrases.
    AccentPhrases(Vec<AccentPhrase>),
    /// One audio query.
    AudioQuery(api_schema::AudioQuery),
    /// A list of audio queries.
    AudioQueries(Vec<api_schema::AudioQuery>),
    /// A list of sound files, each as base64 text.
    Waves(Vec<String>),
    /// The words of a user dictionary, each under its key.
    Dictionary(Vec<(String, api_schema::UserDictWord)>),
    /// A list of voice styles, each by its number.
    StyleIds(Vec<i32>),
    /// The fields of a form, which is sent in place of JSON.
    Form(Vec<QueryParam>),
}

impl View for Body {
    type V = BodyView;

    open spec fn view(&self) -> BodyView {
        match self {
            Body::Empty => BodyView::Empty,
            Body::AccentPhrases(p) => BodyView::AccentPhrases(seq_view(p@)),
            Body::AudioQuery(q) => BodyView::AudioQuery(q@),
            Body::AudioQueries(q) => BodyView::AudioQueries(seq_view(q@)),
            Body::Waves(w) => BodyView::Waves(seq_view(w@)),
            Body::Dictionary(d) => BodyView::Dictionary(d@),
            Body::StyleIds(ids) => BodyView::StyleIds(ids@),
            Body::Form(fields) => BodyView::Form(seq_view(fields@)),
        }
    }
}

/// What a request is.
pub struct RequestView {
    pub method: Method,
    pub path: Seq<char>,
    pub query: Seq<QueryParamView>,
    pub body: BodyView,
}

/// A request to the engine: the method, the path below the server's address,
/// the query parameters in the order in which they are sent, and the body.
#[derive(Debug, Clone, PartialEq)]
pub struct Request {
    pub method: Method,
    pub path: String,
    pub query: Vec<QueryParam>,
    pub body: Body,
}

impl View for Request {
    type V = RequestView;

    open spec fn view(&self) -> RequestView {
        RequestView {
            method: self.method,
            path: self.path@,
            query: seq_view(self.query@),
            body: self.body@,
        }
    }
}

impl RequestView {
    /// The request with one more query parameter, sent last.
    pub open spec fn with_param(self, param: QueryParamView) -> RequestView {
        RequestView { query: self.query.push(param), ..self }
    }

    /// The request with the given body.
    pub open spec fn with_body(self, body: BodyView) -> RequestView {
        RequestView { body, ..self }
    }

    /// The request that asks for the given version of the core, or the
    /// request as it is where no version is asked for.
    pub open spec fn with_core_version(self, core_version: Option<Seq<char>>) -> RequestView {
        match core_version {
            Some(cv) => self.with_param(text_param("core_version"@, cv)),
            None => self,
        }
    }

    /// A request without query parameters and without a body.
    pub open spec fn bare(method: Method, path: Seq<char>) -> RequestView {
        RequestView { method, path, query: Seq::empty(), body: BodyView::Empty }
    }

    /// The address of the request on the given server.
    pub open spec fn url(self, server: Seq<char>) -> Seq<char> {
        "http://"@ + server + self.path
    }
}

/// Adds the version of the core to a request that is being built.
pub trait AddCoreVersion: Sized {
    /// The request, asking for the given version of the core if there is one.
    fn add_core_version(self, core_version: &CoreVersion) -> Self;
}

impl AddCoreVersion for Request {
    fn add_core_version(self, core_version: &CoreVersion) -> (r: Request)
        ensures
            r@ == self@.with_core_version(opt_view(*core_version)),
    {
        match core_version {
            Some(cv) => self.text("core_version", cv.clone()),
            None => self,
        }
    }
}

impl Request {
    /// A request without query parameters and without a body.
    pub fn new(method: Method, path: &str) -> (r: Request)
        ensures
            r@ == RequestView::bare(method, path@),
    {
        let r = Request { method, path: path.to_owned(), query: Vec::new(), body: Body::Empty };
        assert(seq_view(r.query@) =~= Seq::<QueryParamView>::empty());
        r
    }

    /// The request with one more query parameter, sent last.
    pub fn param(self, name: &str, value: QueryValue) -> (r: Request)
        ensures
            r@ == self@.with_param(QueryParamView { name: name@, value: value@ }),
    {
        let mut r = self;
        let p = QueryParam { name: name.to_owned(), value };
        proof {
            crate::views::lemma_seq_view_push(r.query@, p);
        }
        r.query.push(p);
        r
    }

    /// The request with one more query parameter, a whole number.
    pub fn integer(self, name: &str, value: i32) -> (r: Request)
        ensures
            r@ == self@.with_param(int_param(name@, value)),
    {
        self.param(name, QueryValue::Int(value))
    }

    /// The request with one more query parameter, a truth value.
    pub fn flag(self, name: &str, value: bool) -> (r: Request)
        ensures
            r@ == self@.with_param(flag_param(name@, value)),
    {
        self.param(name, QueryValue::Flag(value))
    }

    /// The request with one more query parameter, a real number.
    pub fn number(self, name: &str, value: Scalar) -> (r: Request)
        ensures
            r@ == self@.with_param(number_param(name@, value)),
    {
        self.param(name, QueryValue::Number(value))
    }

    /// The request with one more query parameter, a text.
    pub fn text(self, name: &str, value: String) -> (r: Request)
        ensures
            r@ == self@.with_param(text_param(name@, value@)),
    {
        self.param(name, QueryValue::Text(value))
    }

    /// The request with the given body.
    pub fn body(self, body: Body) -> (r: Request)
        ensures
            r@ == self@.with_body(body@),
    {
        Request { method: self.method, path: self.path, query: self.query, body }
    }

    /// The address of the request on the given server.
    pub fn url(&self, server: &str) -> (r: String)
        ensures
            r@ == self@.url(server@),
    {
        let mut url = "http://".to_owned();
        url.append(server);
        url.append(self.path.as_str());
        url
    }
}

/// How to read the answer to a request, by its status.
#[derive(Clone, Copy, Debug, PartialEq, Eq, Structural)]
pub enum Answer {
    /// The request succeeded, and the body holds what was asked for.
    Success,
    /// The request succeeded, and the answer has no body.
    NoContent,
    /// The reading was not understood; the body says why.
    KanaParse,
    /// The request could not be processed; the body lists the complaints.
    Validation,
    /// Any other status; the body is not read.
    Unknown,
}

impl Answer {
    /// The reading of an answer to a request whose success is status 200 and
    /// which the engine may refuse with status 422.
    pub open spec fn with_body(status: u16) -> Answer {
        if status == 200 {
            Answer::Success
        } else if status == 422 {
            Answer::Validation
        } else {
            Answer::Unknown
        }
    }

    /// The reading of an answer to a request for accent phrases: as
    /// [`Answer::with_body`], and status 400 is a reading not understood.
    pub open spec fn with_kana(status: u16) -> Answer {
        if status == 400 {
            Answer::KanaParse
        } else {
            Answer::with_body(status)
        }
    }

    /// The reading of an answer to a request whose success is status 204 and
    /// which the engine may refuse with status 422.
    pub open spec fn without_body(status: u16) -> Answer {
        if status == 204 {
            Answer::NoContent
        } else if status == 422 {
            Answer::Validation
        } else {
            Answer::Unknown
        }
    }

    /// The reading of an answer to a request that the engine never refuses:
    /// status 200 is success, and nothing else is read.
    pub open spec fn plain(status: u16) -> Answer {
        if status == 200 {
            Answer::Success
        } else {
            Answer::Unknown
        }
    }

    /// See the spec function of this name.
    pub fn read_with_body(status: u16) -> (r: Answer)
        ensures
            r == Answer::with_body(status),
    {
        if status == 200 {
            Answer::Success
        } else if status == 422 {
            Answer::Validation
        } else {
            Answer::Unknown
        }
    }

    /// See the spec function of this name.
    pub fn read_with_kana(status: u16) -> (r: Answer)
        ensures
            r == Answer::with_kana(status),
    {
        if status == 400 {
            Answer::KanaParse
        } else {
            Answer::read_with_body(status)
        }
    }

    /// See the spec function of this name.
    pub fn read_without_body(status: u16) -> (r: Answer)
        ensures
            r == Answer::without_body(status),
    {
        if status == 204 {
            Answer::NoContent
        } else if status == 422 {
            Answer::Validation
        } else {
            Answer::Unknown
        }
    }

    /// See the spec function of this name.
    pub fn read_plain(status: u16) -> (r: Answer)
        ensures
            r == Answer::plain(status),
    {
        if status == 200 {
            Answer::Success
        } else {
            Answer::Unknown
        }
    }
}

/// What a failure of a request is.
pub enum APIErrorView {
    Validation(Seq<api_schema::ValidationErrorView>),
    Io,
    Reqwest,
    Unknown,
}

impl APIErrorView {
    /// What a copy of the failure is: the complaints of the engine are
    /// copied, and of any other failure only that there was one.
    pub open spec fn copied(self) -> APIErrorView {
        match self {
            APIErrorView::Validation(e) => APIErrorView::Validation(e),
            _ => APIErrorView::Unknown,
        }
    }
}

/// A call that the engine offers: the request that makes it, and how to
/// read the answer.
pub trait Api: Sized {
    /// The request to send.
    fn request(self) -> Request;

    /// How to read the answer, by its status.
    fn answer(status: u16) -> Answer;
}

/// Why a request failed.
#[derive(Debug, PartialEq)]
pub enum APIError {
    /// The engine could not process the request.
    Validation(HttpValidationError),
    /// The answer could not be read.
    Io,
    /// The request could not be sent.
    Reqwest,
    /// The engine answered with a status that is not provided for.
    Unknown,
}

/// Why a request for accent phrases failed.
#[derive(Debug, Clone, PartialEq)]
pub enum AccentPhrasesErrors {
    /// The reading was not understood.
    KanaParseError(ParseKanaBadRequest),
    /// Any other failure.
    ApiError(APIError),
}

/// Why a request for an audio query failed.
#[derive(Debug, Clone, PartialEq)]
pub enum AudioQueryErrors {
    Validation(HttpValidationError),
    CantParseBySerde,
    Unknown,
    IO,
}

/// Asks for the audio query of a text spoken in a voice style.
#[derive(Debug, Clone, PartialEq)]
pub struct AudioQuery {
    pub text: String,
    pub speaker: i32,
    pub core_version: CoreVersion,
}

impl Api for AudioQuery {
    /// The request to send.
    fn request(self) -> (r: Request)
        ensures
            r@ == RequestView::bare(Method::Post, "/audio_query"@).with_param(
                int_param("speaker"@, self.speaker),
            ).with_core_version(opt_view(self.core_version)).with_param(
                text_param("text"@, self.text@),
            ),
    {
        Request::new(Method::Post, "/audio_query").integer("speaker", self.speaker).add_core_version(
            &self.core_version,
        ).text("text", self.text)
    }

    /// How to read the answer, by its status.
    fn answer(status: u16) -> (r: Answer)
        ensures
            r == Answer::with_body(status),
    {
        Answer::read_with_body(status)
    }
}

/// Asks for the audio query of a text spoken with a preset.
#[derive(Debug, Clone, PartialEq)]
pub struct AudioQueryFromPreset {
    pub text: String,
    pub preset_id: i32,
    pub core_version: CoreVersion,
}

impl Api for AudioQueryFromPreset {
    /// The request to send.
    fn request(self) -> (r: Request)
        ensures
            r@ == RequestView::bare(Method::Post, "/audio_query_from_preset"@).with_param(
                int_param("preset_id"@, self.preset_id),
            ).with_core_version(opt_view(self.core_version)).with_param(
                text_param("text"@, self.text@),
            ),
    {
        Request::new(Method::Post, "/audio_query_from_preset").integer(
            "preset_id",
            self.preset_id,
        ).add_core_version(&self.core_version).text("text", self.text)
    }

    /// How to read the answer, by its status.
    fn answer(status: u16) -> (r: Answer)
        ensures
            r == Answer::with_body(status),
    {
        Answer::read_with_body(status)
    }
}

/// Asks for the accent phrases of a text, or of a reading where `is_kana` is
/// set.
#[derive(Debug, Clone, PartialEq)]
pub struct AccentPhrases {
    pub text: String,
    pub speaker: i32,
    pub is_kana: Option<bool>,
    pub core_version: CoreVersion,
}

impl AccentPhrases {
    /// Whether the text is sent as a reading: as `is_kana` says, and not where
    /// it says nothing.
    pub open spec fn reads_kana(self) -> bool {
        match self.is_kana {
            Some(b) => b,
            None => false,
        }
    }
}

impl Api for AccentPhrases {
    /// The request to send.
    fn request(self) -> (r: Request)
        ensures
            r@ == RequestView::bare(Method::Post, "/accent_phrases"@).with_param(
                int_param("speaker"@, self.speaker),
            ).with_core_version(opt_view(self.core_version)).with_param(
                flag_param("is_kana"@, self.reads_kana()),
            ).with_param(text_param("text"@, self.text@)),
    {
        let is_kana = match self.is_kana {
            Some(b) => b,
            None => false,
        };
        Request::new(Method::Post, "/accent_phrases").integer("speaker", self.speaker).add_core_version(
            &self.core_version,
        ).flag("is_kana", is_kana).text("text", self.text)
    }

    /// How to read the answer, by its status.
    fn answer(status: u16) -> (r: Answer)
        ensures
            r == Answer::with_kana(status),
    {
        Answer::read_with_kana(status)
    }
}

/// Asks for the pitch and the lengths of the moras of accent phrases.
#[derive(Debug, Clone, PartialEq)]
pub struct MoraData {
    pub speaker: i32,
    pub core_version: CoreVersion,
    pub accent_phrases: Vec<AccentPhrase>,
}

impl Api for MoraData {
    /// The request to send.
    fn request(self) -> (r: Request)
        ensures
            r@ == RequestView::bare(Method::Post, "/mora_data"@).with_param(
                int_param("speaker"@, self.speaker),
            ).with_core_version(opt_view(self.core_version)).with_body(
                BodyView::AccentPhrases(seq_view(self.accent_phrases@)),
            ),
    {
        Request::new(Method::Post, "/mora_data").integer("speaker", self.speaker).add_core_version(
            &self.core_version,
        ).body(Body::AccentPhrases(self.accent_phrases))
    }

    /// How to read the answer, by its status.
    fn answer(status: u16) -> (r: Answer)
        ensures
            r == Answer::with_body(status),
    {
        Answer::read_with_body(status)
    }
}

/// Asks for the lengths of the moras of accent phrases.
#[derive(Debug, Clone, PartialEq)]
pub struct MoraLength {
    pub speaker: i32,
    pub core_version: CoreVersion,
    pub accent_phrases: Vec<AccentPhrase>,
}

impl Api for MoraLength {
    /// The request to send.
    fn request(self) -> (r: Request)
        ensures
            r@ == RequestView::bare(Method::Post, "/mora_length"@).with_param(
                int_param("speaker"@, self.speaker),
            ).with_core_version(opt_view(self.core_version)).with_body(
                BodyView::AccentPhrases(seq_view(self.accent_phrases@)),
            ),
    {
        Request::new(Method::Post, "/mora_length").integer("speaker", self.speaker).add_core_version(
            &self.core_version,
        ).body(Body::AccentPhrases(self.accent_phrases))
    }

    /// How to read the answer, by its status.
    fn answer(status: u16) -> (r: Answer)
        ensures
            r == Answer::with_body(status),
    {
        Answer::read_with_body(status)
    }
}

/// Asks for the pitch of the moras of accent phrases.
#[derive(Debug, Clone, PartialEq)]
pub struct MoraPitch {
    pub speaker: i32,
    pub core_version: CoreVersion,
    pub accent_phrases: Vec<AccentPhrase>,
}

impl Api for MoraPitch {
    /// The request to send.
    fn request(self) -> (r: Request)
        ensures
            r@ == RequestView::bare(Method::Post, "/mora_pitch"@).with_param(
                int_param("speaker"@, self.speaker),
            ).with_core_version(opt_view(self.core_version)).with_body(
                BodyView::AccentPhrases(seq_view(self.accent_phrases@)),
            ),
    {
        Request::new(Method::Post, "/mora_pitch").integer("speaker", self.speaker).add_core_version(
            &self.core_version,
        ).body(Body::AccentPhrases(self.accent_phrases))
    }

    /// How to read the answer, by its status.
    fn answer(status: u16) -> (r: Answer)
        ensures
            r == Answer::with_body(status),
    {
        Answer::read_with_body(status)
    }
}

/// Asks for the sound of an audio query.
#[derive(Debug, Clone, PartialEq)]
pub struct Synthesis {
    pub speaker: i32,
    pub enable_interrogative_upspeak: Option<bool>,
    pub core_version: CoreVersion,
    pub audio_query: api_schema::AudioQuery,
}

impl Synthesis {
    /// Whether questions are spoken with a rising end: as
    /// `enable_interrogative_upspeak` says, and also where it says nothing.
    pub open spec fn upspeak(self) -> bool {
        match self.enable_interrogative_upspeak {
            Some(b) => b,
            None => true,
        }
    }
}

impl Api for Synthesis {
    /// The request to send.
    fn request(self) -> (r: Request)
        ensures
            r@ == RequestView::bare(Method::Post, "/synthesis"@).with_param(
                int_param("speaker"@, self.speaker),
            ).with_param(
                flag_param("enable_interrogative_upspeak"@, self.upspeak()),
            ).with_core_version(opt_view(self.core_version)).with_body(
                BodyView::AudioQuery(self.audio_query@),
            ),
    {
        let upspeak = match self.enable_interrogative_upspeak {
            Some(b) => b,
            None => true,
        };
        Request::new(Method::Post, "/synthesis").integer("speaker", self.speaker).flag(
            "enable_interrogative_upspeak",
            upspeak,
        ).add_core_version(&self.core_version).body(Body::AudioQuery(self.audio_query))
    }

    /// How to read the answer, by its status.
    fn answer(status: u16) -> (r: Answer)
        ensures
            r == Answer::with_body(status),
    {
        Answer::read_with_body(status)
    }
}

/// Asks for the sound of an audio query, in a way that can be called off.
#[derive(Debug, Clone, PartialEq)]
pub struct CancellableSynthesis {
    pub speaker: i32,
    pub core_version: CoreVersion,
    pub audio_query: api_schema::AudioQuery,
}

impl Api for CancellableSynthesis {
    /// The request to send.
    fn request(self) -> (r: Request)
        ensures
            r@ == RequestView::bare(Method::Post, "/cancellable_synthesis"@).with_param(
                int_param("speaker"@, self.speaker),
            ).with_core_version(opt_view(self.core_version)).with_body(
                BodyView::AudioQuery(self.audio_query@),
            ),
    {
        Request::new(Method::Post, "/cancellable_synthesis").integer(
            "speaker",
            self.speaker,
        ).add_core_version(&self.core_version).body(Body::AudioQuery(self.audio_query))
    }

    /// How to read the answer, by its status.
    fn answer(status: u16) -> (r: Answer)
        ensures
            r == Answer::with_body(status),
    {
        Answer::read_with_body(status)
    }
}

/// Asks for the sounds of several audio queries, packed into one archive.
#[derive(Debug, Clone, PartialEq)]
pub struct MultiSynthesis {
    pub speaker: i32,
    pub core_version: CoreVersion,
    pub audio_query: Vec<api_schema::AudioQuery>,
}

impl Api for MultiSynthesis {
    /// The request to send.
    fn request(self) -> (r: Request)
        ensures
            r@ == RequestView::bare(Method::Post, "/multi_synthesis"@).with_param(
                int_param("speaker"@, self.speaker),
            ).with_core_version(opt_view(self.core_version)).with_body(
                BodyView::AudioQueries(seq_view(self.audio_query@)),
            ),
    {
        Request::new(Method::Post, "/multi_synthesis").integer(
            "speaker",
            self.speaker,
        ).add_core_version(&self.core_version).body(Body::AudioQueries(self.audio_query))
    }

    /// How to read the answer, by its status.
    fn answer(status: u16) -> (r: Answer)
        ensures
            r == Answer::with_body(status),
    {
        Answer::read_with_body(status)
    }
}

/// Asks for the sound of an audio query in a voice between two voice styles:
/// at rate 0 the base style, at rate 1 the target style.
#[derive(Debug, Clone, PartialEq)]
pub struct SynthesisMorphing {
    pub base_speaker: i32,
    pub target_speaker: i32,
    pub morph_rate: Scalar,
    pub core_version: CoreVersion,
    pub audio_query: api_schema::AudioQuery,
}

impl Api for SynthesisMorphing {
    /// The request to send.
    fn request(self) -> (r: Request)
        ensures
            r@ == RequestView::bare(Method::Post, "/synthesis_morphing"@).with_param(
                int_param("base_speaker"@, self.base_speaker),
            ).with_param(int_param("target_speaker"@, self.target_speaker)).with_param(
                number_param("morph_rate"@, self.morph_rate),
            ).with_core_version(opt_view(self.core_version)).with_body(
                BodyView::AudioQuery(self.audio_query@),
            ),
    {
        Request::new(Method::Post, "/synthesis_morphing").integer(
            "base_speaker",
            self.base_speaker,
        ).integer("target_speaker", self.target_speaker).number(
            "morph_rate",
            self.morph_rate,
        ).add_core_version(&self.core_version).body(Body::AudioQuery(self.audio_query))
    }

    /// How to read the answer, by its status.
    fn answer(status: u16) -> (r: Answer)
        ensures
            r == Answer::with_body(status),
    {
        Answer::read_with_body(status)
    }
}

/// Asks for several sound files joined into one.
#[derive(Debug, Clone, PartialEq)]
pub struct ConnectWaves {
    pub waves: Vec<Vec<u8>>,
}

impl ConnectWaves {
    /// The joined sound file, given what the text of the answer decoded to:
    /// the bytes, or no bytes where the text did not decode.
    pub fn joined(decoded: Option<Vec<u8>>) -> (r: Vec<u8>)
        ensures
            r@ == (match decoded {
                Some(bytes) => bytes@,
                None => Seq::<u8>::empty(),
            }),
    {
        match decoded {
            Some(bytes) => bytes,
            None => Vec::new(),
        }
    }

    /// The joined sound file that a successful answer holds as base64 text.
    pub fn finish(text: &String) -> (r: Vec<u8>)
        ensures
            r@ == (match base64_decoded(text@) {
                Some(bytes) => bytes,
                None => Seq::<u8>::empty(),
            }),
    {
        ConnectWaves::joined(decode(text))
    }
}

impl Api for ConnectWaves {
    /// The request to send: the sound files go as base64 text.
    fn request(self) -> (r: Request)
        ensures
            r@ == RequestView::bare(Method::Post, "/connect_waves"@).with_body(
                BodyView::Waves(all_encoded(seq_view(self.waves@))),
            ),
    {
        Request::new(Method::Post, "/connect_waves").body(Body::Waves(encode_all(&self.waves)))
    }

    /// How to read the answer, by its status.
    fn answer(status: u16) -> (r: Answer)
        ensures
            r == Answer::with_body(status),
    {
        Answer::read_with_body(status)
    }
}

/// Asks for the presets.
#[derive(Clone, Copy, Debug, PartialEq, Eq, Structural)]
pub struct Presets;

impl Api for Presets {
    /// The request to send.
    fn request(self) -> (r: Request)
        ensures
            r@ == RequestView::bare(Method::Get, "/presets"@),
    {
        Request::new(Method::Get, "/presets")
    }

    /// How to read the answer, by its status.
    fn answer(status: u16) -> (r: Answer)
        ensures
            r == Answer::plain(status),
    {
        Answer::read_plain(status)
    }
}

/// Asks for the version of the engine.
#[derive(Clone, Copy, Debug, PartialEq, Eq, Structural)]
pub struct Version;

impl Api for Version {
    /// The request to send.
    fn request(self) -> (r: Request)
        ensures
            r@ == RequestView::bare(Method::Get, "/version"@),
    {
        Request::new(Method::Get, "/version")
    }

    /// How to read the answer, by its status.
    fn answer(status: u16) -> (r: Answer)
        ensures
            r == Answer::plain(status),
    {
        Answer::read_plain(status)
    }
}

/// Asks for the versions of the core that the engine holds.
#[derive(Clone, Copy, Debug, PartialEq, Eq, Structural)]
pub struct CoreVersions;

impl Api for CoreVersions {
    /// The request to send.
    fn request(self) -> (r: Request)
        ensures
            r@ == RequestView::bare(Method::Get, "/core_versions"@),
    {
        Request::new(Method::Get, "/core_versions")
    }

    /// How to read the answer, by its status.
    fn answer(status: u16) -> (r: Answer)
        ensures
            r == Answer::plain(status),
    {
        Answer::read_plain(status)
    }
}

/// Asks for the characters of the engine.
#[derive(Debug, Clone, PartialEq)]
pub struct Speakers {
    pub core_version: CoreVersion,
}

impl Api for Speakers {
    /// The request to send.
    fn request(self) -> (r: Request)
        ensures
            r@ == RequestView::bare(Method::Get, "/speakers"@).with_core_version(
                opt_view(self.core_version),
            ),
    {
        Request::new(Method::Get, "/speakers").add_core_version(&self.core_version)
    }

    /// How to read the answer, by its status.
    fn answer(status: u16) -> (r: Answer)
        ensures
            r == Answer::with_body(status),
    {
        Answer::read_with_body(status)
    }
}

/// Turns the outcome of decoding a record into the outcome of the request
/// that fetched it: a record that did not decode is an answer that could not
/// be read.
pub fn decoded_or_io<T>(decoded: Result<T, TryFromRawError>) -> (r: Result<T, APIError>)
    ensures
        match decoded {
            Ok(t) => r == Ok::<T, APIError>(t),
            Err(_) => r == Err::<T, APIError>(APIError::Io),
        },
{
    match decoded {
        Ok(t) => Ok(t),
        Err(_) => Err(APIError::Io),
    }
}

/// Asks for the details of a character.
#[derive(Debug, Clone, PartialEq)]
pub struct SpeakerInfo {
    pub speaker_uuid: String,
    pub core_version: CoreVersion,
}

impl SpeakerInfo {
    /// The details that a successful answer holds: the record decoded, or an
    /// answer that could not be read where it does not decode.
    pub fn finish(raw: api_schema::SpeakerInfoRaw) -> (r: Result<api_schema::SpeakerInfo, APIError>)
        ensures
            match raw@.decoded() {
                Ok(info) => r.is_ok() && r.unwrap()@ == info,
                Err(_) => r == Err::<api_schema::SpeakerInfo, APIError>(APIError::Io),
            },
    {
        decoded_or_io(api_schema::SpeakerInfo::try_from(raw))
    }
}

impl Api for SpeakerInfo {
    /// The request to send.
    fn request(self) -> (r: Request)
        ensures
            r@ == RequestView::bare(Method::Get, "/speaker_info"@).with_param(
                text_param("speaker_uuid"@, self.speaker_uuid@),
            ).with_core_version(opt_view(self.core_version)),
    {
        Request::new(Method::Get, "/speaker_info").text(
            "speaker_uuid",
            self.speaker_uuid,
        ).add_core_version(&self.core_version)
    }

    /// How to read the answer, by its status.
    fn answer(status: u16) -> (r: Answer)
        ensures
            r == Answer::with_body(status),
    {
        Answer::read_with_body(status)
    }
}

/// Asks on which devices the engine can run.
#[derive(Debug, Clone, PartialEq)]
pub struct SupportedDevices {
    pub core_version: CoreVersion,
}

impl Api for SupportedDevices {
    /// The request to send.
    fn request(self) -> (r: Request)
        ensures
            r@ == RequestView::bare(Method::Get, "/supported_devices"@).with_core_version(
                opt_view(self.core_version),
            ),
    {
        Request::new(Method::Get, "/supported_devices").add_core_version(&self.core_version)
    }

    /// How to read the answer, by its status.
    fn answer(status: u16) -> (r: Answer)
        ensures
            r == Answer::with_body(status),
    {
        Answer::read_with_body(status)
    }
}

/// Asks for the voice libraries that can be downloaded.
#[derive(Clone, Copy, Debug, PartialEq, Eq, Structural)]
pub struct DownloadableLibraries;

impl DownloadableLibraries {
    /// The library that a successful answer holds: the record decoded, or an
    /// answer that could not be read where it does not decode.
    pub fn finish(raw: api_schema::DownloadableLibrariesRaw) -> (r: Result<
        api_schema::DownloadableLibraries,
        APIError,
    >)
        ensures
            r.is_ok() <==> raw.speaker_info@.decoded().is_ok(),
            r.is_ok() ==> r.unwrap().speaker_info@ == raw.speaker_info@.decoded().unwrap()
                && r.unwrap().download_url == raw.download_url && r.unwrap().bytes == raw.bytes
                && r.unwrap().speaker == raw.speaker,
            r.is_err() ==> r == Err::<api_schema::DownloadableLibraries, APIError>(APIError::Io),
    {
        decoded_or_io(api_schema::DownloadableLibraries::try_from(raw))
    }
}

impl Api for DownloadableLibraries {
    /// The request to send.
    fn request(self) -> (r: Request)
        ensures
            r@ == RequestView::bare(Method::Get, "/downloadble_libraries"@),
    {
        Request::new(Method::Get, "/downloadble_libraries")
    }

    /// How to read the answer, by its status.
    fn answer(status: u16) -> (r: Answer)
        ensures
            r == Answer::with_body(status),
    {
        Answer::read_with_body(status)
    }
}

/// Asks the engine to load a voice style.
#[derive(Debug, Clone, PartialEq)]
pub struct InitializeSpeaker {
    pub speaker: i32,
    pub core_version: CoreVersion,
}

impl Api for InitializeSpeaker {
    /// The request to send.
    fn request(self) -> (r: Request)
        ensures
            r@ == RequestView::bare(Method::Post, "/initialize_speaker"@).with_param(
                int_param("speaker"@, self.speaker),
            ).with_core_version(opt_view(self.core_version)),
    {
        Request::new(Method::Post, "/initialize_speaker").integer(
            "speaker",
            self.speaker,
        ).add_core_version(&self.core_version)
    }

    /// How to read the answer, by its status.
    fn answer(status: u16) -> (r: Answer)
        ensures
            r == Answer::without_body(status),
    {
        Answer::read_without_body(status)
    }
}

/// Asks whether the engine has loaded a voice style.
#[derive(Debug, Clone, PartialEq)]
pub struct IsInitializedSpeaker {
    pub speaker: i32,
    pub core_version: CoreVersion,
}

impl Api for IsInitializedSpeaker {
    /// The request to send.
    fn request(self) -> (r: Request)
        ensures
            r@ == RequestView::bare(Method::Get, "/is_initialized_speaker"@).with_param(
                int_param("speaker"@, self.speaker),
            ).with_core_version(opt_view(self.core_version)),
    {
        Request::new(Method::Get, "/is_initialized_speaker").integer(
            "speaker",
            self.speaker,
        ).add_core_version(&self.core_version)
    }

    /// How to read the answer, by its status.
    fn answer(status: u16) -> (r: Answer)
        ensures
            r == Answer::with_body(status),
    {
        Answer::read_with_body(status)
    }
}

/// Asks what the engine says of itself.
#[derive(Clone, Copy, Debug, PartialEq, Eq, Structural)]
pub struct EngineManifest;

impl EngineManifest {
    /// The manifest that a successful answer holds: the record with its icon
    /// decoded, or an answer that could not be read where the icon does not
    /// decode.
    pub fn finish(raw: api_schema::EngineManifestRaw) -> (r: Result<
        api_schema::EngineManifest,
        APIError,
    >)
        ensures
            match base64_decoded(raw.icon@) {
                Some(bytes) => r.is_ok() && r.unwrap().icon@ == bytes && r.unwrap().same_but_icon(
                    raw,
                ),
                None => r == Err::<api_schema::EngineManifest, APIError>(APIError::Io),
            },
    {
        decoded_or_io(api_schema::EngineManifest::try_from(raw))
    }
}

impl Api for EngineManifest {
    /// The request to send.
    fn request(self) -> (r: Request)
        ensures
            r@ == RequestView::bare(Method::Get, "/engine_manifest"@),
    {
        Request::new(Method::Get, "/engine_manifest")
    }

    /// How to read the answer, by its status.
    fn answer(status: u16) -> (r: Answer)
        ensures
            r == Answer::with_body(status),
    {
        Answer::read_with_body(status)
    }
}

/// Asks for the words of the user dictionary.
#[derive(Clone, Copy, Debug, PartialEq, Eq, Structural)]
pub struct UserDict;

impl Api for UserDict {
    /// The request to send.
    fn request(self) -> (r: Request)
        ensures
            r@ == RequestView::bare(Method::Get, "/user_dict"@),
    {
        Request::new(Method::Get, "/user_dict")
    }

    /// How to read the answer, by its status.
    fn answer(status: u16) -> (r: Answer)
        ensures
            r == Answer::plain(status),
    {
        Answer::read_plain(status)
    }
}

impl RequestView {
    /// The request with the parameters that describe a word of the user
    /// dictionary: how it is written, how it is spoken, where its accent
    /// falls, and then its priority and its part of speech where they are
    /// given.
    pub open spec fn with_word(
        self,
        surface: Seq<char>,
        pronunciation: Seq<char>,
        accent_type: i32,
        priority: Option<i32>,
        word_type: Option<WordType>,
    ) -> RequestView {
        let described = self.with_param(text_param("surface"@, surface)).with_param(
            text_param("pronunciation"@, pronunciation),
        ).with_param(int_param("accent_type"@, accent_type));
        let ranked = match priority {
            Some(p) => described.with_param(int_param("priority"@, p)),
            None => described,
        };
        match word_type {
            Some(w) => ranked.with_param(text_param("word_type"@, w.name_text())),
            None => ranked,
        }
    }
}

impl Request {
    /// The request with the parameters that describe a word of the user
    /// dictionary.
    pub fn word(
        self,
        surface: String,
        pronunciation: String,
        accent_type: i32,
        priority: Option<i32>,
        word_type: Option<WordType>,
    ) -> (r: Request)
        ensures
            r@ == self@.with_word(surface@, pronunciation@, accent_type, priority, word_type),
    {
        let described = self.text("surface", surface).text("pronunciation", pronunciation).integer(
            "accent_type",
            accent_type,
        );
        let ranked = match priority {
            Some(p) => described.integer("priority", p),
            None => described,
        };
        match word_type {
            Some(w) => ranked.text("word_type", w.to_string()),
            None => ranked,
        }
    }
}

/// The path of a word of the user dictionary.
pub open spec fn word_path(uuid: Seq<char>) -> Seq<char> {
    "/user_dict_word/"@ + uuid
}

/// The path of a word of the user dictionary.
pub fn path_of_word(uuid: &String) -> (r: String)
    ensures
        r@ == word_path(uuid@),
{
    let mut path = "/user_dict_word/".to_owned();
    path.append(uuid.as_str());
    path
}

/// Adds a word to the user dictionary. The answer holds the key of the word.
#[derive(Debug, Clone, PartialEq)]
pub struct UserDictWord {
    /// How the word is written.
    pub surface: String,
    /// How the word is spoken, in katakana.
    pub pronunciation: String,
    /// The mora after which the pitch falls.
    pub accent_type: i32,
    pub word_type: Option<WordType>,
    pub priority: Option<i32>,
}

impl Api for UserDictWord {
    /// The request to send.
    fn request(self) -> (r: Request)
        ensures
            r@ == RequestView::bare(Method::Post, "/user_dict_word"@).with_word(
                self.surface@,
                self.pronunciation@,
                self.accent_type,
                self.priority,
                self.word_type,
            ),
    {
        Request::new(Method::Post, "/user_dict_word").word(
            self.surface,
            self.pronunciation,
            self.accent_type,
            self.priority,
            self.word_type,
        )
    }

    /// How to read the answer, by its status.
    fn answer(status: u16) -> (r: Answer)
        ensures
            r == Answer::with_body(status),
    {
        Answer::read_with_body(status)
    }
}

/// Replaces a word of the user dictionary.
#[derive(Debug, Clone, PartialEq)]
pub struct RewriteUserDictWord {
    /// The key of the word.
    pub uuid: String,
    /// How the word is written.
    pub surface: String,
    /// How the word is spoken, in katakana.
    pub pronunciation: String,
    /// The mora after which the pitch falls.
    pub accent_type: i32,
    pub word_type: Option<WordType>,
    pub priority: Option<i32>,
}

impl Api for RewriteUserDictWord {
    /// The request to send.
    fn request(self) -> (r: Request)
        ensures
            r@ == RequestView::bare(Method::Put, word_path(self.uuid@)).with_word(
                self.surface@,
                self.pronunciation@,
                self.accent_type,
                self.priority,
                self.word_type,
            ),
    {
        let path = path_of_word(&self.uuid);
        Request::new(Method::Put, path.as_str()).word(
            self.surface,
            self.pronunciation,
            self.accent_type,
            self.priority,
            self.word_type,
        )
    }

    /// How to read the answer, by its status.
    fn answer(status: u16) -> (r: Answer)
        ensures
            r == Answer::without_body(status),
    {
        Answer::read_without_body(status)
    }
}

/// Removes a word from the user dictionary.
#[derive(Debug, Clone, PartialEq)]
pub struct DeleteUserDictWord {
    /// The key of the word.
    pub uuid: String,
}

impl Api for DeleteUserDictWord {
    /// The request to send.
    fn request(self) -> (r: Request)
        ensures
            r@ == RequestView::bare(Method::Delete, word_path(self.uuid@)),
    {
        let path = path_of_word(&self.uuid);
        Request::new(Method::Delete, path.as_str())
    }

    /// How to read the answer, by its status.
    fn answer(status: u16) -> (r: Answer)
        ensures
            r == Answer::without_body(status),
    {
        Answer::read_without_body(status)
    }
}

/// Hands a whole user dictionary to the engine.
#[derive(Debug, Clone, PartialEq)]
pub struct ImportUserDict {
    pub over_ride: bool,
    /// The words, each under its key.
    pub dictionary: Vec<(String, api_schema::UserDictWord)>,
}

impl Api for ImportUserDict {
    /// The request to send. Only the words are sent.
    fn request(self) -> (r: Request)
        ensures
            r@ == RequestView::bare(Method::Post, "/import_user_dict"@).with_body(
                BodyView::Dictionary(self.dictionary@),
            ),
    {
        Request::new(Method::Post, "/import_user_dict").body(Body::Dictionary(self.dictionary))
    }

    /// How to read the answer, by its status.
    fn answer(status: u16) -> (r: Answer)
        ensures
            r == Answer::without_body(status),
    {
        Answer::read_without_body(status)
    }
}

/// Asks into which voice styles each of the given styles can be morphed.
#[derive(Debug, Clone, PartialEq)]
pub struct MorpableTargets {
    pub style_id: Vec<i32>,
    pub core_version: CoreVersion,
}

impl Api for MorpableTargets {
    /// The request to send.
    fn request(self) -> (r: Request)
        ensures
            r@ == RequestView::bare(Method::Post, "/morphable_targets"@).with_core_version(
                opt_view(self.core_version),
            ).with_body(BodyView::StyleIds(self.style_id@)),
    {
        Request::new(Method::Post, "/morphable_targets").add_core_version(&self.core_version).body(
            Body::StyleIds(self.style_id),
        )
    }

    /// How to read the answer, by its status.
    fn answer(status: u16) -> (r: Answer)
        ensures
            r == Answer::with_body(status),
    {
        Answer::read_with_body(status)
    }
}

impl View for APIError {
    type V = APIErrorView;

    open spec fn view(&self) -> APIErrorView {
        match self {
            APIError::Validation(e) => APIErrorView::Validation(e@),
            APIError::Io => APIErrorView::Io,
            APIError::Reqwest => APIErrorView::Reqwest,
            APIError::Unknown => APIErrorView::Unknown,
        }
    }
}

impl Clone for APIError {
    /// A copy of the error: the complaints of the engine are copied, and of
    /// any other error only that there was one.
    fn clone(&self) -> (r: APIError)
        ensures
            r@ == self@.copied(),
    {
        match self {
            APIError::Validation(e) => APIError::Validation(e.clone()),
            _ => APIError::Unknown,
        }
    }
}

/// Asks for the accent phrases of a recording of a text: the pitch is taken
/// from the recording, mora by mora.
#[derive(Debug, Clone, PartialEq)]
pub struct GuidedAccentPhrase {
    pub core_version: CoreVersion,
    pub text: String,
    pub speaker: i32,
    pub is_kana: bool,
    pub audio_file: String,
    pub normalize: bool,
}

impl GuidedAccentPhrase {
    /// The fields of the form that the request carries, in order.
    pub open spec fn form(self) -> Seq<QueryParamView> {
        seq![
            text_param("text"@, self.text@),
            int_param("speaker"@, self.speaker),
            flag_param("is_kana"@, self.is_kana),
            text_param("audio_file"@, self.audio_file@),
            flag_param("normalize"@, self.normalize),
        ]
    }
}

impl Api for GuidedAccentPhrase {
    /// The request to send: the version of the core goes in the query, and
    /// everything else in a form.
    fn request(self) -> (r: Request)
        ensures
            r@ == RequestView::bare(Method::Post, "/guided_accent_phrase"@).with_core_version(
                opt_view(self.core_version),
            ).with_body(BodyView::Form(self.form())),
    {
        let mut form: Vec<QueryParam> = Vec::new();
        form.push(QueryParam { name: "text".to_owned(), value: QueryValue::Text(self.text) });
        form.push(QueryParam { name: "speaker".to_owned(), value: QueryValue::Int(self.speaker) });
        form.push(QueryParam { name: "is_kana".to_owned(), value: QueryValue::Flag(self.is_kana) });
        form.push(
            QueryParam { name: "audio_file".to_owned(), value: QueryValue::Text(self.audio_file) },
        );
        form.push(
            QueryParam { name: "normalize".to_owned(), value: QueryValue::Flag(self.normalize) },
        );
        assert(seq_view(form@) =~= self.form());
        Request::new(Method::Post, "/guided_accent_phrase").add_core_version(
            &self.core_version,
        ).body(Body::Form(form))
    }

    /// How to read the answer, by its status.
    fn answer(status: u16) -> (r: Answer)
        ensures
            r == Answer::with_body(status),
    {
        Answer::read_with_body(status)
    }
}

} // verus!
