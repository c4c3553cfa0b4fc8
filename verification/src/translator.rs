//! The translation backend's contract and the reading of its replies.

use vstd::prelude::*;
use vstd::utf8::encode_utf8;
use vstd::string::StringExecFns;
use vstd::string::StringSliceAdditionalSpecFns;
use crate::engine::TranslationReplyModel;
use crate::engine::TranslationReply;
use crate::engine::translation_reply_of;
use crate::engine::gbk_decoded;
use crate::engine::decode_gbk;
use crate::engine::decode_translation_reply;

verus! {

/// Why a translation attempt yielded no text.
#[derive(Debug, PartialEq)]
pub enum TranslationError {
    /// The engine binary is absent from its installation path.
    NotInstalled,
    /// The engine process exited non-zero; carries its decoded stderr.
    ProcessFailure(String),
    /// The engine's output did not parse as its JSON reply.
    ParseFailure,
    /// The engine reported success but returned no text.
    MissingText,
    /// The engine answered with an error code; carries its message.
    EngineReported(String),
    /// Not a failure: translation is switched off, reported as an
    /// informational outcome in place of a result.
    Disabled,
}

/// Mathematical image of a translation error.
pub ghost enum TranslationErrorModel {
    NotInstalled,
    ProcessFailure(Seq<char>),
    ParseFailure,
    MissingText,
    EngineReported(Seq<char>),
    Disabled,
}

impl View for TranslationError {
    type V = TranslationErrorModel;

    open spec fn view(&self) -> TranslationErrorModel {
        match self {
            TranslationError::NotInstalled => TranslationErrorModel::NotInstalled,
            TranslationError::ProcessFailure(s) => TranslationErrorModel::ProcessFailure(s@),
            TranslationError::ParseFailure => TranslationErrorModel::ParseFailure,
            TranslationError::MissingText => TranslationErrorModel::MissingText,
            TranslationError::EngineReported(s) => TranslationErrorModel::EngineReported(s@),
            TranslationError::Disabled => TranslationErrorModel::Disabled,
        }
    }
}

/// The human-readable message a translation outcome is rendered as.
pub open spec fn translation_error_text(e: TranslationErrorModel) -> Seq<char> {
    match e {
        TranslationErrorModel::NotInstalled => "the translation engine is not installed"@,
        TranslationErrorModel::ProcessFailure(s) => "the translation engine failed: "@ + s,
        TranslationErrorModel::ParseFailure => "the translation engine returned unreadable output"@,
        TranslationErrorModel::MissingText => "the translation engine returned no text"@,
        TranslationErrorModel::EngineReported(s) => s,
        TranslationErrorModel::Disabled => "translation is switched off"@,
    }
}

impl TranslationError {
    /// Renders the outcome for notifications and the cached result.
    pub fn message(&self) -> (m: String)
        ensures
            m@ == translation_error_text(self@),
    {
        match self {
            TranslationError::NotInstalled => String::from_str(
                "the translation engine is not installed",
            ),
            TranslationError::ProcessFailure(s) => String::from_str(
                "the translation engine failed: ",
            ).concat(s.as_str()),
            TranslationError::ParseFailure => String::from_str(
                "the translation engine returned unreadable output",
            ),
            TranslationError::MissingText => String::from_str(
                "the translation engine returned no text",
            ),
            TranslationError::EngineReported(s) => s.clone(),
            TranslationError::Disabled => String::from_str("translation is switched off"),
        }
    }
}

/// A translation backend: hands back the translated text, or says why there
/// is none.  The orchestrator is written against this contract; the host
/// supplies the implementation that actually reaches an engine.
pub trait Translator {
    fn translate(&self, text: &str, target_lang: &str) -> Result<String, TranslationError>;
}

/// What a parsed translation reply means: code 200 must carry the text;
/// a missing code means the reply was not the engine's documented shape;
/// any other code is an engine-reported error.
pub open spec fn translation_text_spec(m: TranslationReplyModel) -> Result<
    Seq<char>,
    TranslationErrorModel,
> {
    match m.code {
        None => Err(TranslationErrorModel::ParseFailure),
        Some(code) => if code == 200 {
            match m.translated_text {
                Some(t) => Ok(t),
                None => Err(TranslationErrorModel::MissingText),
            }
        } else {
            Err(
                TranslationErrorModel::EngineReported(
                    match m.error_message {
                        Some(msg) => msg,
                        None => "the translation engine reported an unspecified error"@,
                    },
                ),
            )
        },
    }
}

/// What the translation engine's raw streams mean: a non-zero exit fails
/// with the decoded stderr; otherwise the whole decoded stdout is parsed as
/// the engine's one JSON reply and interpreted.
pub open spec fn translation_outcome(exit_ok: bool, stdout: Seq<u8>, stderr: Seq<u8>) -> Result<
    Seq<char>,
    TranslationErrorModel,
> {
    if !exit_ok {
        Err(TranslationErrorModel::ProcessFailure(gbk_decoded(stderr)))
    } else {
        match translation_reply_of(encode_utf8(gbk_decoded(stdout))) {
            None => Err(TranslationErrorModel::ParseFailure),
            Some(m) => translation_text_spec(m),
        }
    }
}

/// What a parsed translation reply yields, exactly as
/// `translation_text_spec` states.
pub fn translation_from_reply(reply: &TranslationReply) -> (r: Result<String, TranslationError>)
    ensures
        match r {
            Ok(t) => translation_text_spec(reply@) == Ok::<Seq<char>, TranslationErrorModel>(t@),
            Err(e) => translation_text_spec(reply@) == Err::<Seq<char>, TranslationErrorModel>(e@),
        },
{
    match reply.code {
        None => Err(TranslationError::ParseFailure),
        Some(code) => if code == 200 {
            match &reply.translated_text {
                Some(t) => Ok(t.clone()),
                None => Err(TranslationError::MissingText),
            }
        } else {
            match &reply.error_message {
                Some(m) => Err(TranslationError::EngineReported(m.clone())),
                None => Err(
                    TranslationError::EngineReported(
                        String::from_str("the translation engine reported an unspecified error"),
                    ),
                ),
            }
        },
    }
}

/// What the translation engine's exit status and raw output streams yield,
/// exactly as `translation_outcome` states.  The host only spawns the
/// process and hands the streams in.
pub fn parse_translation_output(exit_ok: bool, stdout: &[u8], stderr: &[u8]) -> (r: Result<
    String,
    TranslationError,
>)
    ensures
        match r {
            Ok(t) => translation_outcome(exit_ok, stdout@, stderr@) == Ok::<
                Seq<char>,
                TranslationErrorModel,
            >(t@),
            Err(e) => translation_outcome(exit_ok, stdout@, stderr@) == Err::<
                Seq<char>,
                TranslationErrorModel,
            >(e@),
        },
{
    if !exit_ok {
        return Err(TranslationError::ProcessFailure(decode_gbk(stderr)));
    }
    let text = decode_gbk(stdout);
    let bytes = text.as_str().as_bytes();
    match decode_translation_reply(bytes) {
        None => Err(TranslationError::ParseFailure),
        Some(reply) => translation_from_reply(&reply),
    }
}

/// True exactly when the two texts hold the same characters.
fn str_eq(a: &str, b: &str) -> (r: bool)
    ensures
        r == (a@ == b@),
{
    let ab = a.as_bytes();
    let bb = b.as_bytes();
    if ab.len() != bb.len() {
        proof {
            assert(a@ != b@);
        }
        return false;
    }
    let mut i: usize = 0;
    while i < ab.len()
        invariant
            i <= ab@.len(),
            ab@.len() == bb@.len(),
            ab@ == a.spec_bytes(),
            bb@ == b.spec_bytes(),
            forall|k: int| 0 <= k < i ==> ab@[k] == bb@[k],
        decreases ab@.len() - i,
    {
        if ab[i] != bb[i] {
            proof {
                assert(a.spec_bytes()[i as int] != b.spec_bytes()[i as int]);
                assert(a@ != b@);
            }
            return false;
        }
        i = i + 1;
    }
    proof {
        assert(a.spec_bytes() =~= b.spec_bytes());
        vstd::utf8::encode_utf8_decode_utf8(a@);
        vstd::utf8::encode_utf8_decode_utf8(b@);
    }
    true
}

/// The language the engine is told to translate out of: Chinese when the
/// target is English, English for every other target.
pub fn source_lang_for(target_lang: &str) -> (r: &'static str)
    ensures
        target_lang@ == "en"@ ==> r@ == "zh"@,
        target_lang@ != "en"@ ==> r@ == "en"@,
{
    if str_eq(target_lang, "en") {
        "zh"
    } else {
        "en"
    }
}

} // verus!
