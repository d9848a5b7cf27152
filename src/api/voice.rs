//! Voice records and the requests of the voice endpoints.

use crate::api::{headers_view, ClientBuilder, Method, Request, API_KEY_HEADER, BASE_URL};
use crate::error::Error;
use vstd::prelude::*;

verus! {

pub const BASE_PATH: &'static str = "/voices";

pub const SETTINGS_PATH: &'static str = "/settings";

pub const DEFAULT_SETTINGS_PATH: &'static str = "/voices/settings/default";

pub const EDIT_PATH: &'static str = "/edit";

pub const WITH_SETTINGS_QUERY: &'static str = "?with_settings=true";

pub const ACCEPT_HEADER: &'static str = "ACCEPT";

pub const JSON_MEDIA_TYPE: &'static str = "application/json";

/// The category the provider gives to voices cloned from samples.
pub const CLONED_CATEGORY: &'static str = "cloned";

/// The voices of an account, in the order the provider lists them.
#[derive(Debug, Clone)]
pub struct Voices {
    pub voices: Vec<Voice>,
}

/// One voice as the provider describes it.
#[derive(Debug, Clone)]
pub struct Voice {
    pub voice_id: String,
    pub name: Option<String>,
    pub samples: Option<Vec<VoiceSample>>,
    pub category: Option<String>,
    pub labels: Option<Labels>,
    pub description: Option<String>,
    pub preview_url: Option<String>,
    pub settings: Option<VoiceSettings>,
}

/// An audio sample a voice was made from.
#[derive(Debug, Clone)]
pub struct VoiceSample {
    pub sample_id: String,
    pub file_name: String,
    pub mime_type: String,
    pub size_bytes: Option<i64>,
    pub hash: String,
}

/// Free-form labels attached to a voice.
#[derive(Debug, Clone)]
pub struct Labels {
    pub additional_prop1: Option<String>,
    pub additional_prop2: Option<String>,
    pub additional_prop3: Option<String>,
}

/// The synthesis settings of a voice. The three ratios are decimal numbers in
/// the provider's JSON; the library only carries them, so each is held as the
/// bit pattern of its IEEE-754 binary64 value (`f64::to_bits`).
#[derive(Debug, Clone, Copy, PartialEq, Eq, Structural)]
pub struct VoiceSettings {
    pub similarity_boost_bits: u64,
    pub stability_bits: u64,
    pub style_bits: u64,
    pub use_speaker_boost: bool,
}

/// Bit pattern of 0.75.
pub const DEFAULT_SIMILARITY_BOOST_BITS: u64 = 0x3FE8_0000_0000_0000;

/// Bit pattern of 0.5.
pub const DEFAULT_STABILITY_BITS: u64 = 0x3FE0_0000_0000_0000;

/// Bit pattern of 0.0.
pub const DEFAULT_STYLE_BITS: u64 = 0;

impl Default for VoiceSettings {
    /// Similarity boost 0.75, stability 0.5, style 0.0, speaker boost on.
    fn default() -> (r: VoiceSettings)
        ensures
            r.similarity_boost_bits == DEFAULT_SIMILARITY_BOOST_BITS,
            r.stability_bits == DEFAULT_STABILITY_BITS,
            r.style_bits == DEFAULT_STYLE_BITS,
            r.use_speaker_boost,
    {
        VoiceSettings {
            similarity_boost_bits: DEFAULT_SIMILARITY_BOOST_BITS,
            stability_bits: DEFAULT_STABILITY_BITS,
            style_bits: DEFAULT_STYLE_BITS,
            use_speaker_boost: true,
        }
    }
}

/// A voice whose category is "cloned".
pub open spec fn is_clone(v: Voice) -> bool {
    v.category matches Some(c) && c@ == CLONED_CATEGORY@
}

/// A voice whose name is `name`.
pub open spec fn has_name(v: Voice, name: Seq<char>) -> bool {
    v.name matches Some(n) && n@ == name
}

/// `i` is the first position in `s` of a voice named `name`.
pub open spec fn is_first_named(s: Seq<Voice>, name: Seq<char>, i: int) -> bool {
    &&& 0 <= i < s.len()
    &&& has_name(s[i], name)
    &&& forall|j: int| 0 <= j < i ==> !has_name(#[trigger] s[j], name)
}

/// No voice in `s` is named `name`.
pub open spec fn none_named(s: Seq<Voice>, name: Seq<char>) -> bool {
    forall|j: int| 0 <= j < s.len() ==> !has_name(#[trigger] s[j], name)
}

fn is_cloned(v: &Voice) -> (r: bool)
    ensures
        r == is_clone(*v),
{
    match &v.category {
        Some(c) => *c == String::from_str(CLONED_CATEGORY),
        None => false,
    }
}

fn is_named(v: &Voice, name: &str) -> (r: bool)
    ensures
        r == has_name(*v, name@),
{
    match &v.name {
        Some(n) => *n == name.to_owned(),
        None => false,
    }
}

impl Voices {
    /// The cloned voices, in list order.
    pub fn all_clones(&self) -> (r: Vec<&Voice>)
        ensures
            r@.map_values(|v: &Voice| *v) == self.voices@.filter(|v: Voice| is_clone(v)),
    {
        let mut r: Vec<&Voice> = Vec::new();
        let mut i: usize = 0;
        while i < self.voices.len()
            invariant
                i <= self.voices@.len(),
                r@.map_values(|v: &Voice| *v) == self.voices@.take(i as int).filter(
                    |v: Voice| is_clone(v),
                ),
            decreases self.voices@.len() - i,
        {
            let v = &self.voices[i];
            let ghost before = r@;
            if is_cloned(v) {
                r.push(v);
                proof {
                    assert(r@.map_values(|v: &Voice| *v) =~= before.map_values(|v: &Voice| *v).push(*v));
                }
            }
            proof {
                let s = self.voices@.take(i + 1);
                assert(s.drop_last() =~= self.voices@.take(i as int));
                assert(s.last() == *v);
                reveal(Seq::filter);
            }
            i += 1;
        }
        proof {
            assert(self.voices@.take(i as int) =~= self.voices@);
        }
        r
    }

    /// The first voice named `name`; `VoiceNotFound` when none is.
    pub fn by_name(&self, name: &str) -> (r: Result<&Voice, Error>)
        ensures
            r is Err <==> none_named(self.voices@, name@),
            r is Err ==> r matches Err(Error::VoiceNotFound),
            r matches Ok(v) ==> exists|i: int|
                is_first_named(self.voices@, name@, i) && self.voices@[i] == *v,
    {
        let mut i: usize = 0;
        while i < self.voices.len()
            invariant
                i <= self.voices@.len(),
                forall|j: int| 0 <= j < i ==> !has_name(#[trigger] self.voices@[j], name@),
            decreases self.voices@.len() - i,
        {
            let v = &self.voices[i];
            if is_named(v, name) {
                assert(is_first_named(self.voices@, name@, i as int));
                return Ok(v);
            }
            i += 1;
        }
        Err(Error::VoiceNotFound)
    }

    /// The request for the first voice named `voice_name`, with its settings;
    /// `VoiceNotFound` when no voice has that name.
    pub fn voice_with_settings_request(&self, api_key: &str, voice_name: &str) -> (r: Result<
        Request,
        Error,
    >)
        ensures
            r is Err <==> none_named(self.voices@, voice_name@),
            r is Err ==> r matches Err(Error::VoiceNotFound),
            r matches Ok(req) ==> exists|i: int|
                is_first_named(self.voices@, voice_name@, i) && is_json_request(
                    req,
                    Method::Get,
                    api_key@,
                    voice_with_settings_path_of(self.voices@[i].voice_id@),
                ),
    {
        let voice = self.by_name(voice_name)?;
        Ok(get_voice_request(api_key, voice.voice_id.as_str(), true))
    }
}

/// Path of one voice.
pub open spec fn voice_path_of(voice_id: Seq<char>) -> Seq<char> {
    BASE_PATH@ + "/"@ + voice_id
}

/// Path of one voice, asking for its settings too.
pub open spec fn voice_with_settings_path_of(voice_id: Seq<char>) -> Seq<char> {
    voice_path_of(voice_id) + WITH_SETTINGS_QUERY@
}

/// Path of one voice's settings.
pub open spec fn voice_settings_path_of(voice_id: Seq<char>) -> Seq<char> {
    voice_path_of(voice_id) + SETTINGS_PATH@
}

/// Path that edits one voice's settings.
pub open spec fn edit_settings_path_of(voice_id: Seq<char>) -> Seq<char> {
    voice_settings_path_of(voice_id) + EDIT_PATH@
}

/// `r` is a request with `method` for `path` below the base URL, carrying the
/// API key header and then a header that accepts JSON.
pub open spec fn is_json_request(r: Request, method: Method, api_key: Seq<char>, path: Seq<char>) -> bool {
    &&& r.method == method
    &&& r.url@ == BASE_URL@ + path
    &&& headers_view(r.headers@) == seq![
        (API_KEY_HEADER@, api_key),
        (ACCEPT_HEADER@, JSON_MEDIA_TYPE@),
    ]
}

/// The path of one voice, with or without its settings.
pub fn voice_path(voice_id: &str, with_settings: bool) -> (r: String)
    ensures
        with_settings ==> r@ == voice_with_settings_path_of(voice_id@),
        !with_settings ==> r@ == voice_path_of(voice_id@),
{
    let mut p = String::from_str(BASE_PATH);
    p.append("/");
    p.append(voice_id);
    if with_settings {
        p.append(WITH_SETTINGS_QUERY);
    }
    p
}

/// The path of one voice's settings, or of the action that edits them.
pub fn voice_settings_path(voice_id: &str, edit: bool) -> (r: String)
    ensures
        edit ==> r@ == edit_settings_path_of(voice_id@),
        !edit ==> r@ == voice_settings_path_of(voice_id@),
{
    let mut p = voice_path(voice_id, false);
    p.append(SETTINGS_PATH);
    if edit {
        p.append(EDIT_PATH);
    }
    p
}

fn json_request(api_key: &str, method: Method, path: String) -> (r: Request)
    ensures
        is_json_request(r, method, api_key@, path@),
{
    let b = ClientBuilder::new(api_key).method(method).path(path).header(
        ACCEPT_HEADER,
        JSON_MEDIA_TYPE,
    );
    proof {
        assert(seq![(API_KEY_HEADER@, api_key@)] + headers_view(b.headers@) =~= seq![
            (API_KEY_HEADER@, api_key@),
            (ACCEPT_HEADER@, JSON_MEDIA_TYPE@),
        ]);
    }
    b.build().unwrap()
}

/// The request that lists all voices.
pub fn get_voices_request(api_key: &str) -> (r: Request)
    ensures
        is_json_request(r, Method::Get, api_key@, BASE_PATH@),
{
    json_request(api_key, Method::Get, String::from_str(BASE_PATH))
}

/// The request for the provider's default voice settings.
pub fn get_default_settings_request(api_key: &str) -> (r: Request)
    ensures
        is_json_request(r, Method::Get, api_key@, DEFAULT_SETTINGS_PATH@),
{
    json_request(api_key, Method::Get, String::from_str(DEFAULT_SETTINGS_PATH))
}

/// The request for one voice's settings.
pub fn get_voice_settings_request(api_key: &str, voice_id: &str) -> (r: Request)
    ensures
        is_json_request(r, Method::Get, api_key@, voice_settings_path_of(voice_id@)),
{
    json_request(api_key, Method::Get, voice_settings_path(voice_id, false))
}

/// The request for one voice, with its settings when `with_settings` holds.
pub fn get_voice_request(api_key: &str, voice_id: &str, with_settings: bool) -> (r: Request)
    ensures
        with_settings ==> is_json_request(
            r,
            Method::Get,
            api_key@,
            voice_with_settings_path_of(voice_id@),
        ),
        !with_settings ==> is_json_request(r, Method::Get, api_key@, voice_path_of(voice_id@)),
{
    json_request(api_key, Method::Get, voice_path(voice_id, with_settings))
}

/// The request that deletes one voice.
pub fn delete_voice_request(api_key: &str, voice_id: &str) -> (r: Request)
    ensures
        is_json_request(r, Method::Delete, api_key@, voice_path_of(voice_id@)),
{
    json_request(api_key, Method::Delete, voice_path(voice_id, false))
}

/// The request that replaces one voice's settings; its body is the settings
/// as JSON.
pub fn edit_voice_settings_request(api_key: &str, voice_id: &str) -> (r: Request)
    ensures
        is_json_request(r, Method::Post, api_key@, edit_settings_path_of(voice_id@)),
{
    json_request(api_key, Method::Post, voice_settings_path(voice_id, true))
}

} // verus!
