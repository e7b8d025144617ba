//! The speech-recognition model: where its files come from, what each variant
//! weighs, when a transcription or a download may start, and how the
//! recognised segments become one transcript.  Loading the model, reading
//! audio and running the recogniser happen outside the library.
use crate::text::{chars_of, is_trimmed, lemma_trim_is_trimmed, push_str, string_of, trim, trimmed};
use vstd::prelude::*;

verus! {

broadcast use vstd::string::group_string_axioms;

/// `model_url`: where a model variant is downloaded from.
pub fn model_url(variant: &str) -> (r: String)
    ensures
        r@ == "https://huggingface.co/ggerganov/whisper.cpp/resolve/main/ggml-"@ + variant@ + ".bin"@,
{
    let mut v: Vec<char> = Vec::new();
    push_str(&mut v, "https://huggingface.co/ggerganov/whisper.cpp/resolve/main/ggml-");
    push_str(&mut v, variant);
    push_str(&mut v, ".bin");
    string_of(&v)
}

/// `model_filename`: the file a model variant is stored in.
pub fn model_filename(variant: &str) -> (r: String)
    ensures
        r@ == "ggml-"@ + variant@ + ".bin"@,
{
    let mut v: Vec<char> = Vec::new();
    push_str(&mut v, "ggml-");
    push_str(&mut v, variant);
    push_str(&mut v, ".bin");
    string_of(&v)
}

pub open spec fn variant_size_spec(variant: Seq<char>) -> Seq<char> {
    if variant == "tiny"@ {
        "75 MB"@
    } else if variant == "base"@ {
        "142 MB"@
    } else if variant == "small"@ {
        "466 MB"@
    } else if variant == "medium"@ {
        "1.5 GB"@
    } else if variant == "large-v3-turbo"@ {
        "1.5 GB"@
    } else {
        "?"@
    }
}

/// `variant_size`: the download size shown for a model variant.
pub fn variant_size(variant: &str) -> (r: &'static str)
    ensures
        r@ == variant_size_spec(variant@),
{
    if crate::store::text_equals(variant, "tiny") {
        "75 MB"
    } else if crate::store::text_equals(variant, "base") {
        "142 MB"
    } else if crate::store::text_equals(variant, "small") {
        "466 MB"
    } else if crate::store::text_equals(variant, "medium") {
        "1.5 GB"
    } else if crate::store::text_equals(variant, "large-v3-turbo") {
        "1.5 GB"
    } else {
        "?"
    }
}

pub struct ModelInfo {
    pub variant: String,
    pub size_label: String,
}

/// `get_model_info`: the loaded variant, or the default one if none is
/// loaded, with its size.
pub fn model_info(current_variant: &Option<String>, default_variant: &str) -> (r: ModelInfo)
    ensures
        r.variant@ == (match current_variant {
            Some(v) => v@,
            None => default_variant@,
        }),
        r.size_label@ == variant_size_spec(r.variant@),
{
    let variant = match current_variant {
        Some(v) => v.clone(),
        None => crate::text::owned(default_variant),
    };
    let size_label = crate::text::owned(variant_size(variant.as_str()));
    ModelInfo { variant, size_label }
}

/// The variants looked for at start-up, in order: the default one first.
pub open spec fn candidate_variants_spec(default_variant: Seq<char>) -> Seq<Seq<char>> {
    seq![default_variant, "large-v3-turbo"@, "small"@, "tiny"@, "base"@]
}

pub fn candidate_variants(default_variant: &str) -> (r: Vec<String>)
    ensures
        r@.map_values(|s: String| s@) == candidate_variants_spec(default_variant@),
{
    let r = vec![
        crate::text::owned(default_variant),
        crate::text::owned("large-v3-turbo"),
        crate::text::owned("small"),
        crate::text::owned("tiny"),
        crate::text::owned("base"),
    ];
    assert(r@.map_values(|s: String| s@) =~= candidate_variants_spec(default_variant@));
    r
}

/// The state of the model, as far as decisions need it (the download's
/// progress is left out).
pub enum ModelState {
    NotDownloaded,
    Downloading,
    Ready,
    Error(String),
}

/// `transcribe`'s first check: only a ready, loaded model transcribes.
pub fn transcription_gate(state: &ModelState, model_loaded: bool) -> (r: Result<(), String>)
    ensures
        match state {
            ModelState::Ready => if model_loaded {
                r is Ok
            } else {
                r matches Err(e) && e@ == "Modelo no cargado"@
            },
            ModelState::Error(m) => r matches Err(e) && e@ == "Modelo no disponible: "@ + m@,
            ModelState::NotDownloaded => r matches Err(e) && e@
                == "Modelo no descargado. Ve a Configuración para descargarlo."@,
            ModelState::Downloading => r matches Err(e) && e@
                == "El modelo se está descargando. Espera a que termine."@,
        },
{
    match state {
        ModelState::Ready => {
            if model_loaded {
                Ok(())
            } else {
                Err(crate::text::owned("Modelo no cargado"))
            }
        },
        ModelState::Error(m) => {
            let mut v: Vec<char> = Vec::new();
            push_str(&mut v, "Modelo no disponible: ");
            push_str(&mut v, m.as_str());
            Err(string_of(&v))
        },
        ModelState::NotDownloaded => Err(
            crate::text::owned("Modelo no descargado. Ve a Configuración para descargarlo."),
        ),
        ModelState::Downloading => Err(
            crate::text::owned("El modelo se está descargando. Espera a que termine."),
        ),
    }
}

/// `start_download`'s check: one download at a time.
pub fn download_gate(state: &ModelState) -> (r: Result<(), String>)
    ensures
        state is Downloading ==> (r matches Err(e) && e@ == "El modelo ya se está descargando"@),
        !(state is Downloading) ==> r is Ok,
{
    match state {
        ModelState::Downloading => Err(crate::text::owned("El modelo ya se está descargando")),
        _ => Ok(()),
    }
}

/// Audio must be 16-bit integer PCM.
pub fn wav_format_check(is_integer_format: bool, bits_per_sample: u16) -> (r: Result<(), String>)
    ensures
        is_integer_format && bits_per_sample == 16 ==> r is Ok,
        !(is_integer_format && bits_per_sample == 16) ==> (r matches Err(e) && e@
            == "Formato WAV no soportado. Se requiere PCM 16-bit."@),
{
    if !is_integer_format || bits_per_sample != 16 {
        return Err(crate::text::owned("Formato WAV no soportado. Se requiere PCM 16-bit."));
    }
    Ok(())
}

pub const EMPTY_AUDIO: &'static str = "El archivo de audio está vacío";

/// A recording must hold at least one sample.
pub fn audio_samples_check(sample_count: usize) -> (r: Result<(), String>)
    ensures
        sample_count > 0 ==> r is Ok,
        sample_count == 0 ==> (r matches Err(e) && e@ == EMPTY_AUDIO@),
{
    if sample_count == 0 {
        return Err(crate::text::owned(EMPTY_AUDIO));
    }
    Ok(())
}

pub const NO_VOICE: &'static str = "No se detectó voz en el audio. Habla más claro o acércate al micrófono.";

/// The transcript of the segments read so far: each readable segment
/// trimmed, blank ones skipped, the rest joined by single spaces.
pub open spec fn joined_segments(segs: Seq<Option<Seq<char>>>) -> Seq<char>
    decreases segs.len(),
{
    if segs.len() == 0 {
        Seq::empty()
    } else {
        let prev = joined_segments(segs.drop_last());
        match segs.last() {
            Some(s) => {
                let t = trim(s);
                if t.len() == 0 {
                    prev
                } else if prev.len() == 0 {
                    t
                } else {
                    prev + " "@ + t
                }
            },
            None => prev,
        }
    }
}

pub open spec fn segments_view(segs: Seq<Option<String>>) -> Seq<Option<Seq<char>>> {
    segs.map_values(
        |g: Option<String>|
            match g {
                Some(s) => Some(s@),
                None => None,
            },
    )
}

/// The joined transcript never starts or ends with whitespace.
pub proof fn lemma_joined_is_trimmed(segs: Seq<Option<Seq<char>>>)
    ensures
        is_trimmed(joined_segments(segs)),
    decreases segs.len(),
{
    reveal_strlit(" ");
    if segs.len() > 0 {
        lemma_joined_is_trimmed(segs.drop_last());
        if let Some(s) = segs.last() {
            lemma_trim_is_trimmed(s);
            let prev = joined_segments(segs.drop_last());
            let t = trim(s);
            if t.len() > 0 && prev.len() > 0 {
                let j = prev + " "@ + t;
                assert(j[0] == prev[0]);
                assert(j.last() == t.last());
            }
        }
    }
}

/// `transcribe`'s last step: the text of the recognised segments (`None`
/// for a segment that could not be read), or the "no voice detected" error
/// when there are no segments or all of them are blank.
pub fn transcript_from_segments(segments: &Vec<Option<String>>) -> (r: Result<String, String>)
    ensures
        ({
            let j = joined_segments(segments_view(segments@));
            if segments@.len() == 0 || j.len() == 0 {
                r matches Err(e) && e@ == NO_VOICE@
            } else {
                r matches Ok(t) && t@ == j
            }
        }),
{
    let n = segments.len();
    if n == 0 {
        return Err(crate::text::owned(NO_VOICE));
    }
    let ghost sv = segments_view(segments@);
    let mut text: Vec<char> = Vec::new();
    for i in 0..n
        invariant
            n == segments@.len(),
            sv == segments_view(segments@),
            text@ == joined_segments(sv.take(i as int)),
    {
        assert(sv.take(i + 1).drop_last() =~= sv.take(i as int));
        match &segments[i] {
            Some(s) => {
                let sc = chars_of(s.as_str());
                let t = trimmed(&sc);
                if t.len() > 0 {
                    if text.len() > 0 {
                        text.push(' ');
                    }
                    let m = t.len();
                    let ghost start = text@;
                    for k in 0..m
                        invariant
                            m == t@.len(),
                            text@ == start + t@.take(k as int),
                    {
                        text.push(t[k]);
                        assert(t@.take(k + 1) =~= t@.take(k as int).push(t@[k as int]));
                    }
                    assert(t@.take(m as int) =~= t@);
                    proof {
                        reveal_strlit(" ");
                        let prev = joined_segments(sv.take(i as int));
                        if prev.len() > 0 {
                            assert(text@ =~= prev + " "@ + t@);
                        } else {
                            assert(text@ =~= t@);
                        }
                    }
                }
            },
            None => {},
        }
    }
    assert(sv.take(n as int) =~= sv);
    let tc = trimmed(&text);
    proof {
        lemma_joined_is_trimmed(sv);
        crate::text::lemma_trim_of_trimmed(text@);
    }
    if tc.len() == 0 {
        return Err(crate::text::owned(NO_VOICE));
    }
    Ok(string_of(&tc))
}

} // verus!
