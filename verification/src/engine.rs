//! Decoding of the two external engines' output.
//!
//! Both engines are child processes whose standard streams arrive as raw
//! bytes in the engines' native text encoding.  The recognition engine
//! interleaves free-form log lines with exactly one JSON result line; the
//! translation engine prints exactly one JSON object.  Everything after the
//! byte decoding and the JSON field extraction — finding the result line,
//! the status-code convention, joining fragments, blank-result detection —
//! is verified here.

use vstd::prelude::*;
use vstd::utf8::encode_utf8;
use vstd::string::StringExecFns;
use vstd::string::StringSliceAdditionalSpecFns;
use vstd::std_specs::iter::IteratorSpec;

verus! {

/// What the recognition engine's JSON line carries, as plain fields:
/// `code`, the fragments' `text` members when `data` is an array (a
/// fragment without a text member is `None`), and `data` itself when it is
/// a string.
pub struct RecognitionReply {
    pub code: Option<i64>,
    pub texts: Option<Vec<Option<String>>>,
    pub message: Option<String>,
}

/// Mathematical image of a recognition reply.
pub ghost struct RecognitionReplyModel {
    pub code: Option<i64>,
    pub texts: Option<Seq<Option<Seq<char>>>>,
    pub message: Option<Seq<char>>,
}

impl View for RecognitionReply {
    type V = RecognitionReplyModel;

    open spec fn view(&self) -> RecognitionReplyModel {
        RecognitionReplyModel {
            code: self.code,
            texts: self.texts.deep_view(),
            message: self.message.deep_view(),
        }
    }
}

impl DeepView for RecognitionReply {
    type V = RecognitionReplyModel;

    open spec fn deep_view(&self) -> RecognitionReplyModel {
        self.view()
    }
}

/// What the translation engine's JSON object carries, as plain fields.
pub struct TranslationReply {
    pub code: Option<i64>,
    pub translated_text: Option<String>,
    pub error_message: Option<String>,
}

/// Mathematical image of a translation reply.
pub ghost struct TranslationReplyModel {
    pub code: Option<i64>,
    pub translated_text: Option<Seq<char>>,
    pub error_message: Option<Seq<char>>,
}

impl View for TranslationReply {
    type V = TranslationReplyModel;

    open spec fn view(&self) -> TranslationReplyModel {
        TranslationReplyModel {
            code: self.code,
            translated_text: self.translated_text.deep_view(),
            error_message: self.error_message.deep_view(),
        }
    }
}

impl DeepView for TranslationReply {
    type V = TranslationReplyModel;

    open spec fn deep_view(&self) -> TranslationReplyModel {
        self.view()
    }
}

/// The characters that the engine's native encoding assigns to a byte
/// sequence; a function of the bytes alone.
pub uninterp spec fn gbk_decoded(bytes: Seq<u8>) -> Seq<char>;

/// Relies on encoding_rs's GBK.decode: replacement-decodes the engines'
/// native text encoding, deterministically from the bytes alone; an empty
/// input decodes to an empty string.
#[verifier::external_body]
pub(crate) fn decode_gbk(bytes: &[u8]) -> (r: String)
    ensures
        r@ == gbk_decoded(bytes@),
        bytes@.len() == 0 ==> r@.len() == 0,
{
    encoding_rs::GBK.decode(bytes).0.into_owned()
}

/// The recognition reply that the engine's JSON line denotes, if it parses;
/// a function of the bytes alone.
pub uninterp spec fn recognition_reply_of(line: Seq<u8>) -> Option<RecognitionReplyModel>;

/// Relies on serde_json::from_slice and serde_json::Value's accessors
/// (`get`, `as_i64`, `as_array`, `as_str`): reads the recognition engine's
/// JSON line into plain fields, deterministically from the bytes alone.
#[verifier::external_body]
fn decode_recognition_reply(line: &[u8]) -> (r: Option<RecognitionReply>)
    ensures
        r.deep_view() == recognition_reply_of(line@),
{
    let v: serde_json::Value = match serde_json::from_slice(line) {
        Ok(v) => v,
        Err(_) => { return None; },
    };
    Some(RecognitionReply {
        code: v.get("code").and_then(serde_json::Value::as_i64),
        texts: v.get("data").and_then(|d| d.as_array()).map(
            |a|
                a.iter().map(
                    |t| t.get("text").and_then(|s| s.as_str()).map(str::to_string),
                ).collect(),
        ),
        message: v.get("data").and_then(|d| d.as_str()).map(str::to_string),
    })
}

/// The translation reply that the engine's JSON output denotes, if it
/// parses; a function of the bytes alone.
pub uninterp spec fn translation_reply_of(line: Seq<u8>) -> Option<TranslationReplyModel>;

/// Relies on serde_json::from_slice and serde_json::Value's accessors
/// (`get`, `as_i64`, `as_str`): reads the translation engine's JSON output
/// into plain fields, deterministically from the bytes alone.
#[verifier::external_body]
pub(crate) fn decode_translation_reply(line: &[u8]) -> (r: Option<TranslationReply>)
    ensures
        r.deep_view() == translation_reply_of(line@),
{
    let v: serde_json::Value = match serde_json::from_slice(line) {
        Ok(v) => v,
        Err(_) => { return None; },
    };
    Some(TranslationReply {
        code: v.get("code").and_then(serde_json::Value::as_i64),
        translated_text: v.get("translated_text").and_then(|s| s.as_str()).map(str::to_string),
        error_message: v.get("error_message").and_then(|s| s.as_str()).map(str::to_string),
    })
}

/// Index of the first line-feed byte, or the length when there is none.
pub open spec fn first_newline(s: Seq<u8>) -> int
    decreases s.len(),
{
    if s.len() == 0 {
        0
    } else if s[0] == 10 {
        0
    } else {
        1 + first_newline(s.drop_first())
    }
}

/// A line with one trailing carriage return removed, as Rust's line
/// splitting does.
pub open spec fn strip_cr(line: Seq<u8>) -> Seq<u8> {
    if line.len() > 0 && line.last() == 13 {
        line.drop_last()
    } else {
        line
    }
}

/// The first line feed, if any, lies within the text.
pub proof fn lemma_first_newline_bounds(s: Seq<u8>)
    ensures
        0 <= first_newline(s) <= s.len(),
    decreases s.len(),
{
    if s.len() > 0 && s[0] != 10 {
        lemma_first_newline_bounds(s.drop_first());
    }
}

/// The lines of a byte text, split at line feeds, each without a trailing
/// carriage return; a trailing line feed opens no empty final line.
pub open spec fn split_lines(s: Seq<u8>) -> Seq<Seq<u8>>
    decreases s.len(),
    via split_lines_decreases
{
    if s.len() == 0 {
        Seq::empty()
    } else {
        let i = first_newline(s);
        if i == s.len() {
            seq![strip_cr(s)]
        } else {
            seq![strip_cr(s.take(i))] + split_lines(s.skip(i + 1))
        }
    }
}

#[via_fn]
proof fn split_lines_decreases(s: Seq<u8>) {
    lemma_first_newline_bounds(s);
}

/// The first line that opens with a left brace, where the engine's one JSON
/// result line stands among its free-form log lines.
pub open spec fn first_brace_line(lines: Seq<Seq<u8>>) -> Option<Seq<u8>>
    decreases lines.len(),
{
    if lines.len() == 0 {
        None
    } else if lines[0].len() > 0 && lines[0][0] == 123 {
        Some(lines[0])
    } else {
        first_brace_line(lines.drop_first())
    }
}

/// The engine's JSON result line within its decoded standard output.
pub open spec fn json_line_of(s: Seq<u8>) -> Option<Seq<u8>> {
    first_brace_line(split_lines(s))
}

proof fn lemma_first_newline_at(s: Seq<u8>, i: int)
    requires
        0 <= i <= s.len(),
        forall|k: int| 0 <= k < i ==> s[k] != 10,
        i < s.len() ==> s[i] == 10,
    ensures
        first_newline(s) == i,
    decreases i,
{
    if s.len() == 0 {
    } else if s[0] == 10 {
        assert(i == 0);
    } else {
        assert(i >= 1);
        let t = s.drop_first();
        assert(forall|k: int| 0 <= k < i - 1 ==> t[k] == s[k + 1] && t[k] != 10);
        lemma_first_newline_at(t, i - 1);
    }
}

fn find_line_end(bytes: &[u8], start: usize) -> (end: usize)
    requires
        start <= bytes@.len(),
    ensures
        start <= end <= bytes@.len(),
        forall|k: int| start <= k < end ==> bytes@[k] != 10,
        end < bytes@.len() ==> bytes@[end as int] == 10,
{
    let n = bytes.len();
    let mut end = start;
    while end < n
        invariant
            n == bytes@.len(),
            start <= end <= n,
            forall|k: int| start <= k < end ==> bytes@[k] != 10,
        decreases n - end,
    {
        if bytes[end] == 10 {
            return end;
        }
        end = end + 1;
    }
    end
}

/// Finds the engine's JSON result line: the first line of the decoded
/// output that begins with a left brace, free of its trailing carriage
/// return.
fn extract_json_line(bytes: &[u8]) -> (r: Option<Vec<u8>>)
    ensures
        match r {
            Some(v) => json_line_of(bytes@) == Some(v@),
            None => json_line_of(bytes@) is None,
        },
{
    let n = bytes.len();
    let mut start: usize = 0;
    proof {
        assert(bytes@.skip(0) =~= bytes@);
    }
    loop
        invariant
            n == bytes@.len(),
            start <= n,
            json_line_of(bytes@) == first_brace_line(split_lines(bytes@.skip(start as int))),
        decreases n - start,
    {
        if start >= n {
            proof {
                assert(bytes@.skip(start as int) =~= Seq::<u8>::empty());
            }
            return None;
        }
        let end = find_line_end(bytes, start);
        let line_end = if end > start && bytes[end - 1] == 13 {
            end - 1
        } else {
            end
        };
        proof {
            let s = bytes@.skip(start as int);
            assert(forall|k: int| 0 <= k < end - start ==> s[k] == bytes@[k + start] && s[k] != 10);
            if end < n {
                assert(s[end - start] == bytes@[end as int]);
            }
            lemma_first_newline_at(s, end - start);
            let raw = if end == n {
                s
            } else {
                s.take(end - start)
            };
            assert(raw =~= bytes@.subrange(start as int, end as int));
            assert(strip_cr(raw) =~= bytes@.subrange(start as int, line_end as int));
        }
        if line_end > start && bytes[start] == 123 {
            let line = vstd::slice::slice_subrange(bytes, start, line_end);
            let v = vstd::slice::slice_to_vec(line);
            proof {
                let s = bytes@.skip(start as int);
                let lines = split_lines(s);
                assert(lines[0] == bytes@.subrange(start as int, line_end as int));
                assert(lines[0].len() > 0 && lines[0][0] == 123);
            }
            return Some(v);
        }
        proof {
            let s = bytes@.skip(start as int);
            let lines = split_lines(s);
            let head = bytes@.subrange(start as int, line_end as int);
            assert(lines[0] == head);
            assert(!(head.len() > 0 && head[0] == 123)) by {
                if head.len() > 0 {
                    assert(head[0] == bytes@[start as int]);
                }
            }
            assert(first_brace_line(lines) == first_brace_line(lines.drop_first()));
            if end == n {
                assert(lines.drop_first() =~= Seq::<Seq<u8>>::empty());
                assert(first_brace_line(lines) is None);
            } else {
                assert(s.skip((end - start) + 1) =~= bytes@.skip(end + 1));
                assert(lines.drop_first() =~= split_lines(bytes@.skip(end + 1)));
            }
        }
        if end >= n {
            return None;
        }
        start = end + 1;
    }
}

/// The separator the preserve-line-breaks flag selects for joining
/// recognized fragments.
pub open spec fn sep_chars(preserve: bool) -> Seq<char> {
    if preserve {
        "\n"@
    } else {
        " "@
    }
}

/// Texts joined with a separator between neighbours.
pub open spec fn join_with(texts: Seq<Seq<char>>, sep: Seq<char>) -> Seq<char>
    decreases texts.len(),
{
    if texts.len() == 0 {
        Seq::empty()
    } else if texts.len() == 1 {
        texts[0]
    } else {
        texts[0] + sep + join_with(texts.drop_first(), sep)
    }
}

/// The fragments that carry a text member, in order.
pub open spec fn present_texts(ts: Seq<Option<Seq<char>>>) -> Seq<Seq<char>>
    decreases ts.len(),
{
    if ts.len() == 0 {
        Seq::empty()
    } else {
        (match ts[0] {
            Some(t) => seq![t],
            None => Seq::empty(),
        }) + present_texts(ts.drop_first())
    }
}

/// A character of Unicode's White_Space set, by code point: the ASCII
/// whitespace controls and space, next line, no-break space, ogham space
/// mark, the en-quad to hair-space run, line and paragraph separators,
/// narrow no-break space, medium mathematical space, and the ideographic
/// space common in East-Asian engine output.
pub open spec fn is_unicode_ws(c: char) -> bool {
    let u = c as u32;
    u == 0x9 || u == 0xA || u == 0xB || u == 0xC || u == 0xD || u == 0x20 || u == 0x85
        || u == 0xA0 || u == 0x1680 || (0x2000 <= u && u <= 0x200A) || u == 0x2028 || u == 0x2029
        || u == 0x202F || u == 0x205F || u == 0x3000
}

/// True when every character is whitespace — in particular of an empty
/// sequence.
pub open spec fn all_blank(s: Seq<char>) -> bool {
    forall|i: int| 0 <= i < s.len() ==> is_unicode_ws(s[i])
}

/// Why a recognition attempt yielded no text.
#[derive(Debug, PartialEq)]
pub enum RecognitionError {
    /// The engine binary is absent from its installation path.
    NotInstalled,
    /// The engine process exited non-zero; carries its decoded stderr.
    ProcessFailure(String),
    /// The output held no JSON result line, or the line did not parse.
    ParseFailure,
    /// The engine found no text, or only whitespace, in the image.
    EmptyResult,
    /// The engine answered with an error code; carries its message.
    EngineReported(String),
}

/// Mathematical image of a recognition error.
pub ghost enum RecognitionErrorModel {
    NotInstalled,
    ProcessFailure(Seq<char>),
    ParseFailure,
    EmptyResult,
    EngineReported(Seq<char>),
}

impl View for RecognitionError {
    type V = RecognitionErrorModel;

    open spec fn view(&self) -> RecognitionErrorModel {
        match self {
            RecognitionError::NotInstalled => RecognitionErrorModel::NotInstalled,
            RecognitionError::ProcessFailure(s) => RecognitionErrorModel::ProcessFailure(s@),
            RecognitionError::ParseFailure => RecognitionErrorModel::ParseFailure,
            RecognitionError::EmptyResult => RecognitionErrorModel::EmptyResult,
            RecognitionError::EngineReported(s) => RecognitionErrorModel::EngineReported(s@),
        }
    }
}

/// The human-readable message a recognition error is rendered as.
pub open spec fn recognition_error_text(e: RecognitionErrorModel) -> Seq<char> {
    match e {
        RecognitionErrorModel::NotInstalled => "the recognition engine is not installed"@,
        RecognitionErrorModel::ProcessFailure(s) => "the recognition engine failed: "@ + s,
        RecognitionErrorModel::ParseFailure => "the recognition engine returned unreadable output"@,
        RecognitionErrorModel::EmptyResult => "no text was recognized"@,
        RecognitionErrorModel::EngineReported(s) => s,
    }
}

impl RecognitionError {
    /// Renders the error for notifications and the cached result.
    pub fn message(&self) -> (m: String)
        ensures
            m@ == recognition_error_text(self@),
    {
        match self {
            RecognitionError::NotInstalled => String::from_str(
                "the recognition engine is not installed",
            ),
            RecognitionError::ProcessFailure(s) => String::from_str(
                "the recognition engine failed: ",
            ).concat(s.as_str()),
            RecognitionError::ParseFailure => String::from_str(
                "the recognition engine returned unreadable output",
            ),
            RecognitionError::EmptyResult => String::from_str("no text was recognized"),
            RecognitionError::EngineReported(s) => s.clone(),
        }
    }
}

/// The status code with the engine's convention for a missing one.
pub open spec fn effective_code(c: Option<i64>) -> i64 {
    match c {
        Some(x) => x,
        None => 0,
    }
}

/// What a parsed recognition reply means: code 100 carries fragments that
/// are joined and must not be blank; code 101 is the documented empty
/// result; anything else is an engine-reported error, with `data` as the
/// message when it is a string.
pub open spec fn recognition_text_spec(m: RecognitionReplyModel, preserve: bool) -> Result<
    Seq<char>,
    RecognitionErrorModel,
> {
    let code = effective_code(m.code);
    if code == 100 {
        let ts = match m.texts {
            Some(ts) => ts,
            None => Seq::empty(),
        };
        let joined = join_with(present_texts(ts), sep_chars(preserve));
        if all_blank(joined) {
            Err(RecognitionErrorModel::EmptyResult)
        } else {
            Ok(joined)
        }
    } else if code == 101 {
        Err(RecognitionErrorModel::EmptyResult)
    } else {
        Err(
            RecognitionErrorModel::EngineReported(
                match m.message {
                    Some(msg) => msg,
                    None => "the recognition engine reported an unspecified error"@,
                },
            ),
        )
    }
}

/// What the recognition engine's raw streams mean: a non-zero exit fails
/// with the decoded stderr; otherwise the JSON result line of the decoded
/// stdout is found, parsed and interpreted.
pub open spec fn recognition_outcome(
    exit_ok: bool,
    stdout: Seq<u8>,
    stderr: Seq<u8>,
    preserve: bool,
) -> Result<Seq<char>, RecognitionErrorModel> {
    if !exit_ok {
        Err(RecognitionErrorModel::ProcessFailure(gbk_decoded(stderr)))
    } else {
        match json_line_of(encode_utf8(gbk_decoded(stdout))) {
            None => Err(RecognitionErrorModel::ParseFailure),
            Some(line) => match recognition_reply_of(line) {
                None => Err(RecognitionErrorModel::ParseFailure),
                Some(m) => recognition_text_spec(m, preserve),
            },
        }
    }
}

proof fn lemma_present_texts_snoc(ts: Seq<Option<Seq<char>>>, x: Option<Seq<char>>)
    ensures
        present_texts(ts.push(x)) == present_texts(ts) + (match x {
            Some(t) => seq![t],
            None => Seq::<Seq<char>>::empty(),
        }),
    decreases ts.len(),
{
    let tail = match x {
        Some(t) => seq![t],
        None => Seq::<Seq<char>>::empty(),
    };
    if ts.len() == 0 {
        assert(ts.push(x)[0] == x);
        assert(ts.push(x).drop_first() =~= Seq::<Option<Seq<char>>>::empty());
        assert(present_texts(ts.push(x)) == tail + present_texts(ts.push(x).drop_first()));
        assert(present_texts(ts.push(x)) =~= present_texts(ts) + tail);
    } else {
        let head = match ts[0] {
            Some(t) => seq![t],
            None => Seq::<Seq<char>>::empty(),
        };
        assert(ts.push(x)[0] == ts[0]);
        assert(ts.push(x).drop_first() =~= ts.drop_first().push(x));
        lemma_present_texts_snoc(ts.drop_first(), x);
        assert(present_texts(ts.push(x)) == head + (present_texts(ts.drop_first()) + tail));
        assert(present_texts(ts.push(x)) =~= (head + present_texts(ts.drop_first())) + tail);
    }
}

proof fn lemma_join_with_snoc(xs: Seq<Seq<char>>, t: Seq<char>, sep: Seq<char>)
    ensures
        join_with(xs.push(t), sep) == if xs.len() == 0 {
            t
        } else {
            join_with(xs, sep) + sep + t
        },
    decreases xs.len(),
{
    if xs.len() == 0 {
        assert(xs.push(t)[0] == t);
        assert(join_with(xs.push(t), sep) == t);
    } else {
        assert(xs.push(t)[0] == xs[0]);
        assert(xs.push(t).drop_first() =~= xs.drop_first().push(t));
        lemma_join_with_snoc(xs.drop_first(), t, sep);
        if xs.len() == 1 {
            assert(xs.drop_first().len() == 0);
            assert(join_with(xs.push(t), sep) == xs[0] + sep + t);
            assert(join_with(xs, sep) == xs[0]);
        } else {
            assert(join_with(xs.push(t), sep) == xs[0] + sep + (join_with(xs.drop_first(), sep)
                + sep + t));
            assert(join_with(xs.push(t), sep) =~= (xs[0] + sep + join_with(xs.drop_first(), sep))
                + sep + t);
        }
    }
}

/// Joins the fragments that carry text, with the separator the
/// preserve-line-breaks flag selects.
fn join_fragments(texts: &Vec<Option<String>>, preserve: bool) -> (r: String)
    ensures
        r@ == join_with(present_texts(texts.deep_view()), sep_chars(preserve)),
{
    let sep: &str = if preserve {
        "\n"
    } else {
        " "
    };
    let mut out = String::new();
    let mut any = false;
    let mut i: usize = 0;
    while i < texts.len()
        invariant
            i <= texts@.len(),
            sep@ == sep_chars(preserve),
            any == (present_texts(texts.deep_view().take(i as int)).len() > 0),
            out@ == join_with(present_texts(texts.deep_view().take(i as int)), sep_chars(preserve)),
        decreases texts@.len() - i,
    {
        let ghost prefix = texts.deep_view().take(i as int);
        proof {
            assert(texts.deep_view().take(i + 1) =~= prefix.push(texts.deep_view()[i as int]));
            lemma_present_texts_snoc(prefix, texts.deep_view()[i as int]);
        }
        match &texts[i] {
            Some(t) => {
                proof {
                    assert(texts.deep_view()[i as int] == Some(t@));
                    lemma_join_with_snoc(present_texts(prefix), t@, sep_chars(preserve));
                }
                if any {
                    out.append(sep);
                }
                out.append(t.as_str());
                any = true;
                proof {
                    assert(present_texts(prefix) + seq![t@] =~= present_texts(prefix).push(t@));
                }
            },
            None => {
                proof {
                    assert(texts.deep_view()[i as int] is None);
                    assert(present_texts(prefix) + Seq::<Seq<char>>::empty() =~= present_texts(
                        prefix,
                    ));
                }
            },
        }
        i = i + 1;
    }
    proof {
        assert(texts.deep_view().take(texts@.len() as int) =~= texts.deep_view());
    }
    out
}

/// The one character, tested against Unicode's White_Space set.
fn is_ws_char(c: char) -> (r: bool)
    ensures
        r == is_unicode_ws(c),
{
    let u = c as u32;
    u == 0x9 || u == 0xA || u == 0xB || u == 0xC || u == 0xD || u == 0x20 || u == 0x85
        || u == 0xA0 || u == 0x1680 || (0x2000 <= u && u <= 0x200A) || u == 0x2028 || u == 0x2029
        || u == 0x202F || u == 0x205F || u == 0x3000
}

/// True when the text holds nothing but whitespace characters.
fn is_blank_str(s: &str) -> (r: bool)
    ensures
        r == all_blank(s@),
{
    broadcast use vstd::string::axiom_spec_iter, vstd::string::next_postcondition;

    let mut it = s.chars();
    let ghost mut i: int = 0;
    proof {
        assert(IteratorSpec::remaining(&it) =~= s@.skip(0));
    }
    loop
        invariant
            0 <= i <= s@.len(),
            IteratorSpec::remaining(&it) == s@.skip(i),
            forall|j: int| 0 <= j < i ==> is_unicode_ws(s@[j]),
        decreases s@.len() - i,
    {
        let ghost prev = it;
        match it.next() {
            None => {
                proof {
                    assert(s@.skip(i).len() == 0);
                }
                return true;
            },
            Some(c) => {
                proof {
                    assert(IteratorSpec::remaining(&prev).len() > 0);
                    assert(c == s@.skip(i)[0]);
                    assert(c == s@[i]);
                    assert(IteratorSpec::remaining(&it) =~= s@.skip(i + 1));
                }
                if !is_ws_char(c) {
                    proof {
                        assert(!is_unicode_ws(s@[i]));
                    }
                    return false;
                }
                proof {
                    i = i + 1;
                }
            },
        }
    }
}

/// What a parsed recognition reply yields, exactly as
/// `recognition_text_spec` states.
pub fn recognition_from_reply(reply: &RecognitionReply, preserve_line_breaks: bool) -> (r: Result<
    String,
    RecognitionError,
>)
    ensures
        match r {
            Ok(t) => recognition_text_spec(reply@, preserve_line_breaks) == Ok::<
                Seq<char>,
                RecognitionErrorModel,
            >(t@),
            Err(e) => recognition_text_spec(reply@, preserve_line_breaks) == Err::<
                Seq<char>,
                RecognitionErrorModel,
            >(e@),
        },
{
    let code: i64 = match reply.code {
        Some(c) => c,
        None => 0,
    };
    if code == 100 {
        let joined = match &reply.texts {
            Some(ts) => join_fragments(ts, preserve_line_breaks),
            None => {
                proof {
                    assert(join_with(
                        present_texts(Seq::<Option<Seq<char>>>::empty()),
                        sep_chars(preserve_line_breaks),
                    ) =~= Seq::<char>::empty());
                }
                String::new()
            },
        };
        if is_blank_str(joined.as_str()) {
            Err(RecognitionError::EmptyResult)
        } else {
            Ok(joined)
        }
    } else if code == 101 {
        Err(RecognitionError::EmptyResult)
    } else {
        match &reply.message {
            Some(m) => Err(RecognitionError::EngineReported(m.clone())),
            None => Err(
                RecognitionError::EngineReported(
                    String::from_str("the recognition engine reported an unspecified error"),
                ),
            ),
        }
    }
}

/// What the recognition engine's exit status and raw output streams yield,
/// exactly as `recognition_outcome` states.  The host only spawns the
/// process and hands the streams in.
pub fn parse_recognition_output(
    exit_ok: bool,
    stdout: &[u8],
    stderr: &[u8],
    preserve_line_breaks: bool,
) -> (r: Result<String, RecognitionError>)
    ensures
        match r {
            Ok(t) => recognition_outcome(exit_ok, stdout@, stderr@, preserve_line_breaks) == Ok::<
                Seq<char>,
                RecognitionErrorModel,
            >(t@),
            Err(e) => recognition_outcome(exit_ok, stdout@, stderr@, preserve_line_breaks) == Err::<
                Seq<char>,
                RecognitionErrorModel,
            >(e@),
        },
{
    if !exit_ok {
        return Err(RecognitionError::ProcessFailure(decode_gbk(stderr)));
    }
    let text = decode_gbk(stdout);
    let bytes = text.as_str().as_bytes();
    match extract_json_line(bytes) {
        None => Err(RecognitionError::ParseFailure),
        Some(line) => match decode_recognition_reply(line.as_slice()) {
            None => Err(RecognitionError::ParseFailure),
            Some(reply) => recognition_from_reply(&reply, preserve_line_breaks),
        },
    }
}

} // verus!
