//! Application settings and their durable byte-level codec.
//!
//! The settings record is a flat structure; `save` lays it out as one JSON
//! object in a fixed canonical shape and `load` reads that shape back.  The
//! codec is written here, over bytes, so that the round trip can be proved;
//! the host only moves the bytes to and from the configuration file.

use vstd::prelude::*;
use vstd::utf8::encode_utf8;
use vstd::utf8::decode_utf8;
use vstd::utf8::valid_utf8;
use vstd::utf8::is_ascii_chars;
use vstd::string::StringExecFns;
use vstd::string::StringSliceAdditionalSpecFns;

verus! {

/// Where the recognition engine binary lives, relative to the application's
/// resource directory.
pub const RECOGNITION_ENGINE_RELATIVE_PATH: &'static str = "external/PaddleOCR-json/PaddleOCR-json.exe";

/// Where the translation engine binary lives, relative to the application's
/// resource directory.
pub const TRANSLATION_ENGINE_RELATIVE_PATH: &'static str = "external/Translator/translate.exe";

/// What one capture run does with the persisted image once the branch point
/// of the pipeline is reached.
#[derive(Clone, Copy, PartialEq, Eq, Structural, Debug)]
pub enum PrimaryAction {
    RecognizeOnly,
    RecognizeTranslate,
    CopyToClipboard,
    SaveToDesktop,
    Preview,
}

/// All user-configurable state, owned by the shared state store and replaced
/// only through the settings-update entry point.
#[derive(Debug)]
pub struct AppSettings {
    /// Hotkey that starts a capture run.
    pub shortcut: String,
    /// Hotkey that re-opens the most recent capture.
    pub view_image_shortcut: String,
    /// Language the translation engine is asked to produce.
    pub target_lang: String,
    /// Branch taken by a run after the image is persisted.
    pub primary_action: PrimaryAction,
    /// Launch the application at login.
    pub autostart: bool,
    /// Run the recognition engine at all; off short-circuits to a preview.
    pub enable_ocr: bool,
    /// Run the translation engine after a successful recognition.
    pub enable_translation: bool,
    /// Join recognized fragments with a newline instead of a space.
    pub preserve_line_breaks: bool,
}

/// Mathematical image of a settings record: every text field as its sequence
/// of characters.
pub ghost struct AppSettingsModel {
    pub shortcut: Seq<char>,
    pub view_image_shortcut: Seq<char>,
    pub target_lang: Seq<char>,
    pub primary_action: PrimaryAction,
    pub autostart: bool,
    pub enable_ocr: bool,
    pub enable_translation: bool,
    pub preserve_line_breaks: bool,
}

impl View for AppSettings {
    type V = AppSettingsModel;

    open spec fn view(&self) -> AppSettingsModel {
        AppSettingsModel {
            shortcut: self.shortcut@,
            view_image_shortcut: self.view_image_shortcut@,
            target_lang: self.target_lang@,
            primary_action: self.primary_action,
            autostart: self.autostart,
            enable_ocr: self.enable_ocr,
            enable_translation: self.enable_translation,
            preserve_line_breaks: self.preserve_line_breaks,
        }
    }
}

impl Clone for AppSettings {
    /// A clone carries exactly the same settings.
    fn clone(&self) -> (r: Self)
        ensures
            r@ == self@,
    {
        AppSettings {
            shortcut: self.shortcut.clone(),
            view_image_shortcut: self.view_image_shortcut.clone(),
            target_lang: self.target_lang.clone(),
            primary_action: self.primary_action,
            autostart: self.autostart,
            enable_ocr: self.enable_ocr,
            enable_translation: self.enable_translation,
            preserve_line_breaks: self.preserve_line_breaks,
        }
    }
}

impl Default for AppSettings {
    /// Out-of-the-box settings: function keys for the two hotkeys, Chinese as
    /// the translation target, every optional behaviour switched off.
    fn default() -> (d: AppSettings)
        ensures
            d@.shortcut == "F1"@,
            d@.view_image_shortcut == "F3"@,
            d@.target_lang == "zh"@,
            d@.primary_action == PrimaryAction::RecognizeOnly,
            !d@.autostart,
            !d@.enable_ocr,
            !d@.enable_translation,
            !d@.preserve_line_breaks,
    {
        AppSettings {
            shortcut: String::from_str("F1"),
            view_image_shortcut: String::from_str("F3"),
            target_lang: String::from_str("zh"),
            primary_action: PrimaryAction::RecognizeOnly,
            autostart: false,
            enable_ocr: false,
            enable_translation: false,
            preserve_line_breaks: false,
        }
    }
}

/// JSON string escaping restricted to what the canonical layout needs: a
/// quote or a backslash gets a backslash put before it, every other byte
/// passes through.
pub open spec fn escape_bytes(s: Seq<u8>) -> Seq<u8>
    decreases s.len(),
{
    if s.len() == 0 {
        Seq::empty()
    } else {
        (if s[0] == 34 || s[0] == 92 {
            seq![92u8, s[0]]
        } else {
            seq![s[0]]
        }) + escape_bytes(s.drop_first())
    }
}

/// The JSON spelling of a boolean.
pub open spec fn bool_bytes(b: bool) -> Seq<u8> {
    if b {
        "true".spec_bytes()
    } else {
        "false".spec_bytes()
    }
}

/// The single decimal digit that stands for a primary action in the stored
/// form.
pub open spec fn spec_action_digit(a: PrimaryAction) -> u8 {
    match a {
        PrimaryAction::RecognizeOnly => 48,
        PrimaryAction::RecognizeTranslate => 49,
        PrimaryAction::CopyToClipboard => 50,
        PrimaryAction::SaveToDesktop => 51,
        PrimaryAction::Preview => 52,
    }
}

fn action_digit(a: PrimaryAction) -> (d: u8)
    ensures
        d == spec_action_digit(a),
{
    match a {
        PrimaryAction::RecognizeOnly => 48,
        PrimaryAction::RecognizeTranslate => 49,
        PrimaryAction::CopyToClipboard => 50,
        PrimaryAction::SaveToDesktop => 51,
        PrimaryAction::Preview => 52,
    }
}

/// The stored form from the `preserve_line_breaks` field on.
pub open spec fn json_from_plb(pl: bool) -> Seq<u8> {
    ",\"preserve_line_breaks\":".spec_bytes() + bool_bytes(pl) + "}".spec_bytes()
}

/// The stored form from the `enable_translation` field on.
pub open spec fn json_from_et(et: bool, pl: bool) -> Seq<u8> {
    ",\"enable_translation\":".spec_bytes() + bool_bytes(et) + json_from_plb(pl)
}

/// The stored form from the `enable_ocr` field on.
pub open spec fn json_from_eo(eo: bool, et: bool, pl: bool) -> Seq<u8> {
    ",\"enable_ocr\":".spec_bytes() + bool_bytes(eo) + json_from_et(et, pl)
}

/// The stored form from the `autostart` field on.
pub open spec fn json_from_au(au: bool, eo: bool, et: bool, pl: bool) -> Seq<u8> {
    ",\"autostart\":".spec_bytes() + bool_bytes(au) + json_from_eo(eo, et, pl)
}

/// The stored form from the `primary_action` field on.
pub open spec fn json_from_action(m: AppSettingsModel) -> Seq<u8> {
    ",\"primary_action\":".spec_bytes() + seq![spec_action_digit(m.primary_action)] + json_from_au(
        m.autostart,
        m.enable_ocr,
        m.enable_translation,
        m.preserve_line_breaks,
    )
}

/// The stored form from the `target_lang` field on.
pub open spec fn json_from_target(m: AppSettingsModel) -> Seq<u8> {
    ",\"target_lang\":\"".spec_bytes() + escape_bytes(encode_utf8(m.target_lang)) + seq![34u8]
        + json_from_action(m)
}

/// The stored form from the `view_image_shortcut` field on.
pub open spec fn json_from_view(m: AppSettingsModel) -> Seq<u8> {
    ",\"view_image_shortcut\":\"".spec_bytes() + escape_bytes(encode_utf8(m.view_image_shortcut))
        + seq![34u8] + json_from_target(m)
}

/// The canonical stored form of a settings record: one flat JSON object with
/// the fields in a fixed order, string fields escaped by `escape_bytes`, the
/// primary action as a single digit.
pub open spec fn settings_json(m: AppSettingsModel) -> Seq<u8> {
    "{\"shortcut\":\"".spec_bytes() + escape_bytes(encode_utf8(m.shortcut)) + seq![34u8]
        + json_from_view(m)
}

/// Appends the bytes of a fixed piece of text.
fn push_literal(out: &mut Vec<u8>, lit: &str)
    ensures
        final(out)@ == old(out)@ + lit.spec_bytes(),
{
    let bytes = lit.as_bytes();
    out.extend_from_slice(bytes);
}

proof fn lemma_escape_bytes_snoc(s: Seq<u8>, b: u8)
    ensures
        escape_bytes(s.push(b)) == escape_bytes(s) + (if b == 34 || b == 92 {
            seq![92u8, b]
        } else {
            seq![b]
        }),
    decreases s.len(),
{
    let tail = if b == 34 || b == 92 {
        seq![92u8, b]
    } else {
        seq![b]
    };
    if s.len() == 0 {
        assert(s.push(b)[0] == b);
        assert(s.push(b).drop_first() =~= Seq::<u8>::empty());
        assert(escape_bytes(s.push(b)) == tail + escape_bytes(s.push(b).drop_first()));
        assert(escape_bytes(s.push(b)) =~= escape_bytes(s) + tail);
    } else {
        let head = if s[0] == 34 || s[0] == 92 {
            seq![92u8, s[0]]
        } else {
            seq![s[0]]
        };
        assert(s.push(b)[0] == s[0]);
        assert(s.push(b).drop_first() =~= s.drop_first().push(b));
        lemma_escape_bytes_snoc(s.drop_first(), b);
        assert(escape_bytes(s.push(b)) == head + (escape_bytes(s.drop_first()) + tail));
        assert(escape_bytes(s.push(b)) =~= (head + escape_bytes(s.drop_first())) + tail);
        assert(escape_bytes(s) == head + escape_bytes(s.drop_first()));
    }
}

/// Appends the bytes of a text field, escaped.
fn push_escaped(out: &mut Vec<u8>, s: &str)
    ensures
        final(out)@ == old(out)@ + escape_bytes(s.spec_bytes()),
{
    let bytes = s.as_bytes();
    let mut i: usize = 0;
    while i < bytes.len()
        invariant
            i <= bytes@.len(),
            bytes@ == s.spec_bytes(),
            out@ == old(out)@ + escape_bytes(bytes@.take(i as int)),
        decreases bytes@.len() - i,
    {
        let b = bytes[i];
        if b == 34 || b == 92 {
            out.push(92);
            out.push(b);
        } else {
            out.push(b);
        }
        proof {
            assert(bytes@.take(i + 1) =~= bytes@.take(i as int).push(bytes@[i as int]));
            lemma_escape_bytes_snoc(bytes@.take(i as int), bytes@[i as int]);
        }
        i = i + 1;
    }
    proof {
        assert(bytes@.take(bytes@.len() as int) =~= bytes@);
    }
}

/// Appends the JSON spelling of a boolean.
fn push_bool(out: &mut Vec<u8>, b: bool)
    ensures
        final(out)@ == old(out)@ + bool_bytes(b),
{
    if b {
        push_literal(out, "true");
    } else {
        push_literal(out, "false");
    }
}

/// A chunk of the stored form: key literal, escaped text, closing quote, then
/// everything that follows.
fn build_text_field_then(lit: &str, text: &str, tail: Vec<u8>) -> (v: Vec<u8>)
    ensures
        v@ == lit.spec_bytes() + escape_bytes(text.spec_bytes()) + seq![34u8] + tail@,
{
    let mut v: Vec<u8> = Vec::new();
    push_literal(&mut v, lit);
    push_escaped(&mut v, text);
    v.push(34);
    let mut t = tail;
    v.append(&mut t);
    proof {
        assert(v@ =~= lit.spec_bytes() + escape_bytes(text.spec_bytes()) + seq![34u8] + tail@);
    }
    v
}

/// A chunk of the stored form: key literal, boolean, then everything that
/// follows.
fn build_bool_field_then(lit: &str, b: bool, tail: Vec<u8>) -> (v: Vec<u8>)
    ensures
        v@ == lit.spec_bytes() + bool_bytes(b) + tail@,
{
    let mut v: Vec<u8> = Vec::new();
    push_literal(&mut v, lit);
    push_bool(&mut v, b);
    let mut t = tail;
    v.append(&mut t);
    proof {
        assert(v@ =~= lit.spec_bytes() + bool_bytes(b) + tail@);
    }
    v
}

impl AppSettings {
    /// Lays the record out in its canonical stored form, ready to be written
    /// to the configuration file by the host.
    pub fn save(&self) -> (out: Vec<u8>)
        ensures
            out@ == settings_json(self@),
    {
        let mut close: Vec<u8> = Vec::new();
        push_literal(&mut close, "}");
        proof {
            assert(close@ =~= "}".spec_bytes());
        }
        let t_plb = build_bool_field_then(
            ",\"preserve_line_breaks\":",
            self.preserve_line_breaks,
            close,
        );
        let t_et = build_bool_field_then(
            ",\"enable_translation\":",
            self.enable_translation,
            t_plb,
        );
        let t_eo = build_bool_field_then(",\"enable_ocr\":", self.enable_ocr, t_et);
        let t_au = build_bool_field_then(",\"autostart\":", self.autostart, t_eo);
        let mut t_act: Vec<u8> = Vec::new();
        push_literal(&mut t_act, ",\"primary_action\":");
        let d = action_digit(self.primary_action);
        t_act.push(d);
        let mut t_au_moved = t_au;
        t_act.append(&mut t_au_moved);
        proof {
            assert(t_act@ =~= ",\"primary_action\":".spec_bytes() + seq![
                spec_action_digit(self.primary_action),
            ] + json_from_au(
                self.autostart,
                self.enable_ocr,
                self.enable_translation,
                self.preserve_line_breaks,
            ));
        }
        let t_target = build_text_field_then(
            ",\"target_lang\":\"",
            self.target_lang.as_str(),
            t_act,
        );
        let t_view = build_text_field_then(
            ",\"view_image_shortcut\":\"",
            self.view_image_shortcut.as_str(),
            t_target,
        );
        let out = build_text_field_then("{\"shortcut\":\"", self.shortcut.as_str(), t_view);
        out
    }
}

/// One parsing step: the input must begin with `lit`; what follows it is
/// handed back.
pub open spec fn spec_expect(s: Seq<u8>, lit: Seq<u8>) -> Option<Seq<u8>> {
    if lit.is_prefix_of(s) {
        Some(s.skip(lit.len() as int))
    } else {
        None
    }
}

/// Reads a JSON string body up to its closing quote, undoing `escape_bytes`:
/// a backslash must be followed by a quote or a backslash, which it yields;
/// a bare quote ends the string; any other byte yields itself.
pub open spec fn spec_parse_string(s: Seq<u8>) -> Option<(Seq<u8>, Seq<u8>)>
    decreases s.len(),
{
    if s.len() == 0 {
        None
    } else if s[0] == 34 {
        Some((Seq::empty(), s.drop_first()))
    } else if s[0] == 92 {
        if s.len() >= 2 && (s[1] == 34 || s[1] == 92) {
            match spec_parse_string(s.skip(2)) {
                Some((v, r)) => Some((seq![s[1]] + v, r)),
                None => None,
            }
        } else {
            None
        }
    } else {
        match spec_parse_string(s.drop_first()) {
            Some((v, r)) => Some((seq![s[0]] + v, r)),
            None => None,
        }
    }
}

/// Reads the JSON spelling of a boolean.
pub open spec fn spec_parse_bool(s: Seq<u8>) -> Option<(bool, Seq<u8>)> {
    if "true".spec_bytes().is_prefix_of(s) {
        Some((true, s.skip("true".spec_bytes().len() as int)))
    } else if "false".spec_bytes().is_prefix_of(s) {
        Some((false, s.skip("false".spec_bytes().len() as int)))
    } else {
        None
    }
}

/// Reads the single digit that stands for a primary action.
pub open spec fn spec_parse_action(s: Seq<u8>) -> Option<(PrimaryAction, Seq<u8>)> {
    if s.len() == 0 {
        None
    } else if s[0] == 48 {
        Some((PrimaryAction::RecognizeOnly, s.drop_first()))
    } else if s[0] == 49 {
        Some((PrimaryAction::RecognizeTranslate, s.drop_first()))
    } else if s[0] == 50 {
        Some((PrimaryAction::CopyToClipboard, s.drop_first()))
    } else if s[0] == 51 {
        Some((PrimaryAction::SaveToDesktop, s.drop_first()))
    } else if s[0] == 52 {
        Some((PrimaryAction::Preview, s.drop_first()))
    } else {
        None
    }
}

/// A text field: its key-and-opening-quote literal, then the escaped text.
pub open spec fn spec_parse_text_field(s: Seq<u8>, lit: Seq<u8>) -> Option<(Seq<u8>, Seq<u8>)> {
    match spec_expect(s, lit) {
        Some(r) => spec_parse_string(r),
        None => None,
    }
}

/// A boolean field: its key literal, then the boolean.
pub open spec fn spec_parse_bool_field(s: Seq<u8>, lit: Seq<u8>) -> Option<(bool, Seq<u8>)> {
    match spec_expect(s, lit) {
        Some(r) => spec_parse_bool(r),
        None => None,
    }
}

/// What `AppSettings::load` accepts and how it reads it: the canonical layout
/// of `settings_json`, with each text field required to be well-formed UTF-8.
pub open spec fn parse_settings(s: Seq<u8>) -> Option<AppSettingsModel> {
    match spec_parse_text_field(s, "{\"shortcut\":\"".spec_bytes()) {
        None => None,
        Some((sc, s1)) => match spec_parse_text_field(
            s1,
            ",\"view_image_shortcut\":\"".spec_bytes(),
        ) {
            None => None,
            Some((vs, s2)) => match spec_parse_text_field(s2, ",\"target_lang\":\"".spec_bytes()) {
                None => None,
                Some((tl, s3)) => match spec_expect(s3, ",\"primary_action\":".spec_bytes()) {
                    None => None,
                    Some(s4) => match spec_parse_action(s4) {
                        None => None,
                        Some((pa, s5)) => match spec_parse_bool_field(
                            s5,
                            ",\"autostart\":".spec_bytes(),
                        ) {
                            None => None,
                            Some((au, s6)) => match spec_parse_bool_field(
                                s6,
                                ",\"enable_ocr\":".spec_bytes(),
                            ) {
                                None => None,
                                Some((eo, s7)) => match spec_parse_bool_field(
                                    s7,
                                    ",\"enable_translation\":".spec_bytes(),
                                ) {
                                    None => None,
                                    Some((et, s8)) => match spec_parse_bool_field(
                                        s8,
                                        ",\"preserve_line_breaks\":".spec_bytes(),
                                    ) {
                                        None => None,
                                        Some((pl, s9)) => match spec_expect(s9, "}".spec_bytes()) {
                                            None => None,
                                            Some(s10) => if s10.len() == 0 && valid_utf8(sc)
                                                && valid_utf8(vs) && valid_utf8(tl) {
                                                Some(
                                                    AppSettingsModel {
                                                        shortcut: decode_utf8(sc),
                                                        view_image_shortcut: decode_utf8(vs),
                                                        target_lang: decode_utf8(tl),
                                                        primary_action: pa,
                                                        autostart: au,
                                                        enable_ocr: eo,
                                                        enable_translation: et,
                                                        preserve_line_breaks: pl,
                                                    },
                                                )
                                            } else {
                                                None
                                            },
                                        },
                                    },
                                },
                            },
                        },
                    },
                },
            },
        },
    }
}

fn expect_lit(bytes: &[u8], pos: usize, lit: &str) -> (r: Option<usize>)
    requires
        pos <= bytes@.len(),
    ensures
        match r {
            Some(p) => pos <= p <= bytes@.len() && spec_expect(
                bytes@.skip(pos as int),
                lit.spec_bytes(),
            ) == Some(bytes@.skip(p as int)),
            None => spec_expect(bytes@.skip(pos as int), lit.spec_bytes()) is None,
        },
{
    let lb = lit.as_bytes();
    let n = bytes.len();
    if n - pos < lb.len() {
        return None;
    }
    let mut i: usize = 0;
    while i < lb.len()
        invariant
            n == bytes@.len(),
            pos + lb@.len() <= n,
            i <= lb@.len(),
            lb@ == lit.spec_bytes(),
            pos <= bytes@.len(),
            forall|j: int| 0 <= j < i ==> bytes@[pos + j] == lb@[j],
        decreases lb@.len() - i,
    {
        if bytes[pos + i] != lb[i] {
            proof {
                let s = bytes@.skip(pos as int);
                let l = lit.spec_bytes();
                if l.is_prefix_of(s) {
                    assert(l[i as int] == s.subrange(0, l.len() as int)[i as int]);
                    assert(s[i as int] == bytes@[pos + i]);
                }
            }
            return None;
        }
        i = i + 1;
    }
    proof {
        let s = bytes@.skip(pos as int);
        let l = lit.spec_bytes();
        assert(l =~= s.subrange(0, l.len() as int));
        assert(s.skip(l.len() as int) =~= bytes@.skip(pos + l.len()));
    }
    Some(pos + lb.len())
}

fn parse_string_at(bytes: &[u8], pos: usize) -> (r: Option<(Vec<u8>, usize)>)
    requires
        pos <= bytes@.len(),
    ensures
        match r {
            Some((v, p)) => pos <= p <= bytes@.len() && spec_parse_string(bytes@.skip(pos as int))
                == Some((v@, bytes@.skip(p as int))),
            None => spec_parse_string(bytes@.skip(pos as int)) is None,
        },
{
    let mut out: Vec<u8> = Vec::new();
    let mut i: usize = pos;
    loop
        invariant
            pos <= i <= bytes@.len(),
            spec_parse_string(bytes@.skip(pos as int)) == match spec_parse_string(
                bytes@.skip(i as int),
            ) {
                Some((v, r)) => Some((out@ + v, r)),
                None => None::<(Seq<u8>, Seq<u8>)>,
            },
        decreases bytes@.len() - i,
    {
        if i >= bytes.len() {
            return None;
        }
        let b = bytes[i];
        if b == 34 {
            proof {
                let s = bytes@.skip(i as int);
                assert(s[0] == b);
                assert(s.drop_first() =~= bytes@.skip(i + 1));
                assert(out@ + Seq::<u8>::empty() =~= out@);
            }
            return Some((out, i + 1));
        } else if b == 92 {
            if i + 1 < bytes.len() && (bytes[i + 1] == 34 || bytes[i + 1] == 92) {
                let c = bytes[i + 1];
                proof {
                    let s = bytes@.skip(i as int);
                    assert(s[0] == b && s[1] == c);
                    assert(s.skip(2) =~= bytes@.skip(i + 2));
                }
                let ghost pre = out@;
                out.push(c);
                proof {
                    let s = bytes@.skip(i as int);
                    assert(out@ =~= pre + seq![c]);
                    match spec_parse_string(bytes@.skip(i + 2)) {
                        Some((v, r)) => {
                            assert(spec_parse_string(s) == Some((seq![c] + v, r)));
                            assert(out@ + v =~= pre + (seq![c] + v));
                        },
                        None => {},
                    }
                }
                i = i + 2;
            } else {
                proof {
                    let s = bytes@.skip(i as int);
                    assert(s[0] == b);
                    if s.len() >= 2 {
                        assert(s[1] == bytes@[i + 1]);
                    }
                }
                return None;
            }
        } else {
            proof {
                let s = bytes@.skip(i as int);
                assert(s[0] == b);
                assert(s.drop_first() =~= bytes@.skip(i + 1));
            }
            let ghost pre = out@;
            out.push(b);
            proof {
                let s = bytes@.skip(i as int);
                assert(out@ =~= pre + seq![b]);
                match spec_parse_string(bytes@.skip(i + 1)) {
                    Some((v, r)) => {
                        assert(spec_parse_string(s) == Some((seq![b] + v, r)));
                        assert(out@ + v =~= pre + (seq![b] + v));
                    },
                    None => {},
                }
            }
            i = i + 1;
        }
    }
}

fn parse_bool_at(bytes: &[u8], pos: usize) -> (r: Option<(bool, usize)>)
    requires
        pos <= bytes@.len(),
    ensures
        match r {
            Some((b, p)) => pos <= p <= bytes@.len() && spec_parse_bool(bytes@.skip(pos as int))
                == Some((b, bytes@.skip(p as int))),
            None => spec_parse_bool(bytes@.skip(pos as int)) is None,
        },
{
    match expect_lit(bytes, pos, "true") {
        Some(p) => Some((true, p)),
        None => match expect_lit(bytes, pos, "false") {
            Some(p) => Some((false, p)),
            None => None,
        },
    }
}

fn parse_action_at(bytes: &[u8], pos: usize) -> (r: Option<(PrimaryAction, usize)>)
    requires
        pos <= bytes@.len(),
    ensures
        match r {
            Some((a, p)) => pos <= p <= bytes@.len() && spec_parse_action(bytes@.skip(pos as int))
                == Some((a, bytes@.skip(p as int))),
            None => spec_parse_action(bytes@.skip(pos as int)) is None,
        },
{
    if pos >= bytes.len() {
        return None;
    }
    let b = bytes[pos];
    proof {
        let s = bytes@.skip(pos as int);
        assert(s[0] == b);
        assert(s.drop_first() =~= bytes@.skip(pos + 1));
    }
    if b == 48 {
        Some((PrimaryAction::RecognizeOnly, pos + 1))
    } else if b == 49 {
        Some((PrimaryAction::RecognizeTranslate, pos + 1))
    } else if b == 50 {
        Some((PrimaryAction::CopyToClipboard, pos + 1))
    } else if b == 51 {
        Some((PrimaryAction::SaveToDesktop, pos + 1))
    } else if b == 52 {
        Some((PrimaryAction::Preview, pos + 1))
    } else {
        None
    }
}

/// Relies on std's str::from_utf8: it succeeds exactly on well-formed UTF-8
/// and the resulting string holds the characters those bytes encode.
#[verifier::external_body]
fn utf8_to_string(v: &[u8]) -> (r: Option<String>)
    ensures
        r is Some <==> valid_utf8(v@),
        r matches Some(s) ==> s@ == decode_utf8(v@),
{
    match std::str::from_utf8(v) {
        Ok(s) => Some(s.to_string()),
        Err(_) => None,
    }
}

impl AppSettings {
    /// Reads a record back from its stored form.  Accepts exactly the layout
    /// `settings_json` produces, as `parse_settings` states.
    pub fn load(bytes: &[u8]) -> (r: Option<AppSettings>)
        ensures
            match r {
                Some(s) => parse_settings(bytes@) == Some(s@),
                None => parse_settings(bytes@) is None,
            },
    {
        proof {
            assert(bytes@.skip(0) =~= bytes@);
        }
        let p0 = match expect_lit(bytes, 0, "{\"shortcut\":\"") {
            Some(p) => p,
            None => { return None; },
        };
        let (sc_bytes, p1) = match parse_string_at(bytes, p0) {
            Some(v) => v,
            None => { return None; },
        };
        let p2 = match expect_lit(bytes, p1, ",\"view_image_shortcut\":\"") {
            Some(p) => p,
            None => { return None; },
        };
        let (vs_bytes, p3) = match parse_string_at(bytes, p2) {
            Some(v) => v,
            None => { return None; },
        };
        let p4 = match expect_lit(bytes, p3, ",\"target_lang\":\"") {
            Some(p) => p,
            None => { return None; },
        };
        let (tl_bytes, p5) = match parse_string_at(bytes, p4) {
            Some(v) => v,
            None => { return None; },
        };
        let p6 = match expect_lit(bytes, p5, ",\"primary_action\":") {
            Some(p) => p,
            None => { return None; },
        };
        let (pa, p7) = match parse_action_at(bytes, p6) {
            Some(v) => v,
            None => { return None; },
        };
        let p8 = match expect_lit(bytes, p7, ",\"autostart\":") {
            Some(p) => p,
            None => { return None; },
        };
        let (au, p9) = match parse_bool_at(bytes, p8) {
            Some(v) => v,
            None => { return None; },
        };
        let p10 = match expect_lit(bytes, p9, ",\"enable_ocr\":") {
            Some(p) => p,
            None => { return None; },
        };
        let (eo, p11) = match parse_bool_at(bytes, p10) {
            Some(v) => v,
            None => { return None; },
        };
        let p12 = match expect_lit(bytes, p11, ",\"enable_translation\":") {
            Some(p) => p,
            None => { return None; },
        };
        let (et, p13) = match parse_bool_at(bytes, p12) {
            Some(v) => v,
            None => { return None; },
        };
        let p14 = match expect_lit(bytes, p13, ",\"preserve_line_breaks\":") {
            Some(p) => p,
            None => { return None; },
        };
        let (pl, p15) = match parse_bool_at(bytes, p14) {
            Some(v) => v,
            None => { return None; },
        };
        let p16 = match expect_lit(bytes, p15, "}") {
            Some(p) => p,
            None => { return None; },
        };
        if p16 != bytes.len() {
            return None;
        }
        let shortcut = match utf8_to_string(sc_bytes.as_slice()) {
            Some(s) => s,
            None => { return None; },
        };
        let view_image_shortcut = match utf8_to_string(vs_bytes.as_slice()) {
            Some(s) => s,
            None => { return None; },
        };
        let target_lang = match utf8_to_string(tl_bytes.as_slice()) {
            Some(s) => s,
            None => { return None; },
        };
        Some(
            AppSettings {
                shortcut,
                view_image_shortcut,
                target_lang,
                primary_action: pa,
                autostart: au,
                enable_ocr: eo,
                enable_translation: et,
                preserve_line_breaks: pl,
            },
        )
    }
}

proof fn lemma_expect_concat(lit: Seq<u8>, rest: Seq<u8>)
    ensures
        spec_expect(lit + rest, lit) == Some(rest),
{
    let s = lit + rest;
    assert(lit =~= s.subrange(0, lit.len() as int));
    assert(s.skip(lit.len() as int) =~= rest);
}

proof fn lemma_parse_escaped(x: Seq<u8>, rest: Seq<u8>)
    ensures
        spec_parse_string(escape_bytes(x) + seq![34u8] + rest) == Some((x, rest)),
    decreases x.len(),
{
    let s = escape_bytes(x) + seq![34u8] + rest;
    if x.len() == 0 {
        assert(s[0] == 34);
        assert(s.drop_first() =~= rest);
    } else {
        let b = x[0];
        let x1 = x.drop_first();
        lemma_parse_escaped(x1, rest);
        if b == 34 || b == 92 {
            assert(escape_bytes(x) == seq![92u8, b] + escape_bytes(x1));
            assert(s[0] == 92 && s[1] == b);
            assert(s.skip(2) =~= escape_bytes(x1) + seq![34u8] + rest);
            assert(seq![b] + x1 =~= x);
        } else {
            assert(escape_bytes(x) == seq![b] + escape_bytes(x1));
            assert(s[0] == b);
            assert(s.drop_first() =~= escape_bytes(x1) + seq![34u8] + rest);
            assert(seq![b] + x1 =~= x);
        }
    }
}

proof fn lemma_bool_literal_bytes()
    ensures
        "true".spec_bytes() =~= seq![116u8, 114u8, 117u8, 101u8],
        "false".spec_bytes() =~= seq![102u8, 97u8, 108u8, 115u8, 101u8],
{
    reveal_strlit("true");
    reveal_strlit("false");
    assert(is_ascii_chars("true"@));
    assert(is_ascii_chars("false"@));
    vstd::utf8::is_ascii_chars_encode_utf8("true"@);
    vstd::utf8::is_ascii_chars_encode_utf8("false"@);
}

proof fn lemma_parse_bool_concat(b: bool, rest: Seq<u8>)
    ensures
        spec_parse_bool(bool_bytes(b) + rest) == Some((b, rest)),
{
    lemma_bool_literal_bytes();
    let s = bool_bytes(b) + rest;
    if b {
        assert("true".spec_bytes() =~= s.subrange(0, "true".spec_bytes().len() as int));
        assert(s.skip("true".spec_bytes().len() as int) =~= rest);
    } else {
        assert(!"true".spec_bytes().is_prefix_of(s)) by {
            if "true".spec_bytes().is_prefix_of(s) {
                assert("true".spec_bytes()[0] == s.subrange(
                    0,
                    "true".spec_bytes().len() as int,
                )[0]);
                assert(s[0] == "false".spec_bytes()[0]);
            }
        }
        assert("false".spec_bytes() =~= s.subrange(0, "false".spec_bytes().len() as int));
        assert(s.skip("false".spec_bytes().len() as int) =~= rest);
    }
}

proof fn lemma_parse_action_concat(a: PrimaryAction, rest: Seq<u8>)
    ensures
        spec_parse_action(seq![spec_action_digit(a)] + rest) == Some((a, rest)),
{
    let s = seq![spec_action_digit(a)] + rest;
    assert(s[0] == spec_action_digit(a));
    assert(s.drop_first() =~= rest);
}

proof fn lemma_parse_text_field_concat(lit: Seq<u8>, x: Seq<u8>, rest: Seq<u8>)
    ensures
        spec_parse_text_field(lit + (escape_bytes(x) + seq![34u8] + rest), lit) == Some((x, rest)),
{
    lemma_expect_concat(lit, escape_bytes(x) + seq![34u8] + rest);
    lemma_parse_escaped(x, rest);
}

proof fn lemma_parse_bool_field_concat(lit: Seq<u8>, b: bool, rest: Seq<u8>)
    ensures
        spec_parse_bool_field(lit + (bool_bytes(b) + rest), lit) == Some((b, rest)),
{
    lemma_expect_concat(lit, bool_bytes(b) + rest);
    lemma_parse_bool_concat(b, rest);
}

proof fn lemma_rt_plb(pl: bool)
    ensures
        spec_parse_bool_field(json_from_plb(pl), ",\"preserve_line_breaks\":".spec_bytes()) == Some(
            (pl, "}".spec_bytes()),
        ),
        spec_expect("}".spec_bytes(), "}".spec_bytes()) == Some(Seq::<u8>::empty()),
{
    let l = ",\"preserve_line_breaks\":".spec_bytes();
    assert(json_from_plb(pl) =~= l + (bool_bytes(pl) + "}".spec_bytes()));
    lemma_parse_bool_field_concat(l, pl, "}".spec_bytes());
    lemma_expect_concat("}".spec_bytes(), Seq::<u8>::empty());
    assert("}".spec_bytes() + Seq::<u8>::empty() =~= "}".spec_bytes());
}

proof fn lemma_rt_et(et: bool, pl: bool)
    ensures
        spec_parse_bool_field(json_from_et(et, pl), ",\"enable_translation\":".spec_bytes())
            == Some((et, json_from_plb(pl))),
{
    let l = ",\"enable_translation\":".spec_bytes();
    assert(json_from_et(et, pl) =~= l + (bool_bytes(et) + json_from_plb(pl)));
    lemma_parse_bool_field_concat(l, et, json_from_plb(pl));
}

proof fn lemma_rt_eo(eo: bool, et: bool, pl: bool)
    ensures
        spec_parse_bool_field(json_from_eo(eo, et, pl), ",\"enable_ocr\":".spec_bytes()) == Some(
            (eo, json_from_et(et, pl)),
        ),
{
    let l = ",\"enable_ocr\":".spec_bytes();
    assert(json_from_eo(eo, et, pl) =~= l + (bool_bytes(eo) + json_from_et(et, pl)));
    lemma_parse_bool_field_concat(l, eo, json_from_et(et, pl));
}

proof fn lemma_rt_au(au: bool, eo: bool, et: bool, pl: bool)
    ensures
        spec_parse_bool_field(json_from_au(au, eo, et, pl), ",\"autostart\":".spec_bytes()) == Some(
            (au, json_from_eo(eo, et, pl)),
        ),
{
    let l = ",\"autostart\":".spec_bytes();
    assert(json_from_au(au, eo, et, pl) =~= l + (bool_bytes(au) + json_from_eo(eo, et, pl)));
    lemma_parse_bool_field_concat(l, au, json_from_eo(eo, et, pl));
}

proof fn lemma_rt_action(m: AppSettingsModel)
    ensures
        spec_expect(json_from_action(m), ",\"primary_action\":".spec_bytes()) == Some(
            seq![spec_action_digit(m.primary_action)] + json_from_au(
                m.autostart,
                m.enable_ocr,
                m.enable_translation,
                m.preserve_line_breaks,
            ),
        ),
        spec_parse_action(
            seq![spec_action_digit(m.primary_action)] + json_from_au(
                m.autostart,
                m.enable_ocr,
                m.enable_translation,
                m.preserve_line_breaks,
            ),
        ) == Some(
            (
                m.primary_action,
                json_from_au(m.autostart, m.enable_ocr, m.enable_translation,
                m.preserve_line_breaks),
            ),
        ),
{
    let l = ",\"primary_action\":".spec_bytes();
    let d = seq![spec_action_digit(m.primary_action)];
    let t = json_from_au(m.autostart, m.enable_ocr, m.enable_translation, m.preserve_line_breaks);
    assert(json_from_action(m) =~= l + (d + t));
    lemma_expect_concat(l, d + t);
    lemma_parse_action_concat(m.primary_action, t);
}

proof fn lemma_rt_target(m: AppSettingsModel)
    ensures
        spec_parse_text_field(json_from_target(m), ",\"target_lang\":\"".spec_bytes()) == Some(
            (encode_utf8(m.target_lang), json_from_action(m)),
        ),
{
    let l = ",\"target_lang\":\"".spec_bytes();
    let x = encode_utf8(m.target_lang);
    assert(json_from_target(m) =~= l + (escape_bytes(x) + seq![34u8] + json_from_action(m)));
    lemma_parse_text_field_concat(l, x, json_from_action(m));
}

proof fn lemma_rt_view(m: AppSettingsModel)
    ensures
        spec_parse_text_field(json_from_view(m), ",\"view_image_shortcut\":\"".spec_bytes())
            == Some((encode_utf8(m.view_image_shortcut), json_from_target(m))),
{
    let l = ",\"view_image_shortcut\":\"".spec_bytes();
    let x = encode_utf8(m.view_image_shortcut);
    assert(json_from_view(m) =~= l + (escape_bytes(x) + seq![34u8] + json_from_target(m)));
    lemma_parse_text_field_concat(l, x, json_from_target(m));
}

proof fn lemma_rt_shortcut(m: AppSettingsModel)
    ensures
        spec_parse_text_field(settings_json(m), "{\"shortcut\":\"".spec_bytes()) == Some(
            (encode_utf8(m.shortcut), json_from_view(m)),
        ),
{
    let l = "{\"shortcut\":\"".spec_bytes();
    let x = encode_utf8(m.shortcut);
    assert(settings_json(m) =~= l + (escape_bytes(x) + seq![34u8] + json_from_view(m)));
    lemma_parse_text_field_concat(l, x, json_from_view(m));
}

/// Law: the settings codec round-trips.  Reading back the canonical stored
/// form of any settings record yields that record, character for character.
pub proof fn lemma_settings_round_trip(m: AppSettingsModel)
    ensures
        parse_settings(settings_json(m)) == Some(m),
{
    broadcast use vstd::utf8::encode_utf8_valid_utf8, vstd::utf8::encode_utf8_decode_utf8;

    lemma_rt_shortcut(m);
    lemma_rt_view(m);
    lemma_rt_target(m);
    lemma_rt_action(m);
    lemma_rt_au(m.autostart, m.enable_ocr, m.enable_translation, m.preserve_line_breaks);
    lemma_rt_eo(m.enable_ocr, m.enable_translation, m.preserve_line_breaks);
    lemma_rt_et(m.enable_translation, m.preserve_line_breaks);
    lemma_rt_plb(m.preserve_line_breaks);
    assert(decode_utf8(encode_utf8(m.shortcut)) == m.shortcut);
    assert(decode_utf8(encode_utf8(m.view_image_shortcut)) == m.view_image_shortcut);
    assert(decode_utf8(encode_utf8(m.target_lang)) == m.target_lang);
}

} // verus!
