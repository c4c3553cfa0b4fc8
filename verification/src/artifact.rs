//! Presentation payloads derived from a persisted capture artifact.

use vstd::prelude::*;
use vstd::string::StringExecFns;
use vstd::string::StringSliceAdditionalSpecFns;

verus! {

/// Payload of the image-viewer event: the image inlined as a data URL,
/// beside its path.
pub struct ImageViewerPayload {
    pub image_data_url: String,
    pub image_path: String,
}

/// The standard padded base64 rendering of a byte sequence; a function of
/// the bytes alone.
pub uninterp spec fn base64_std(bytes: Seq<u8>) -> Seq<char>;

/// Relies on the base64 crate's STANDARD engine: the padded alphabet
/// renders every three bytes as four characters, deterministically from
/// the bytes alone.
#[verifier::external_body]
fn base64_encode(bytes: &[u8]) -> (r: String)
    ensures
        r@ == base64_std(bytes@),
        r@.len() == 4 * ((bytes@.len() + 2) / 3),
{
    base64::Engine::encode(&base64::engine::general_purpose::STANDARD, bytes)
}

/// The inline form of a PNG image, as the viewer surface expects it.
pub open spec fn data_url_of(png_bytes: Seq<u8>) -> Seq<char> {
    "data:image/png;base64,"@ + base64_std(png_bytes)
}

/// Renders a persisted PNG as a data URL for the viewer surface.
pub fn make_image_data_url(png_bytes: &[u8]) -> (r: String)
    ensures
        r@ == data_url_of(png_bytes@),
{
    let mut out = String::from_str("data:image/png;base64,");
    let encoded = base64_encode(png_bytes);
    out.append(encoded.as_str());
    out
}

/// Builds the image-viewer event payload for a persisted capture: its path
/// beside its content inlined as a data URL.
pub fn make_viewer_payload(image_path: String, png_bytes: &[u8]) -> (p: ImageViewerPayload)
    ensures
        p.image_data_url@ == data_url_of(png_bytes@),
        p.image_path@ == image_path@,
{
    ImageViewerPayload { image_data_url: make_image_data_url(png_bytes), image_path }
}

/// The decimal digits of a number, most significant first, as bytes.
pub open spec fn decimal_bytes(n: nat) -> Seq<u8>
    decreases n,
{
    if n < 10 {
        seq![(48 + n) as u8]
    } else {
        decimal_bytes(n / 10).push((48 + n % 10) as u8)
    }
}

/// The name a capture is saved under on the desktop, from the second count
/// of the moment it is saved.
pub open spec fn desktop_filename_spec(timestamp: nat) -> Seq<u8> {
    "screenshot-".spec_bytes() + decimal_bytes(timestamp) + ".png".spec_bytes()
}

/// Builds the desktop file name for a capture saved at the given time, as
/// UTF-8 bytes.
pub fn desktop_filename(timestamp: u64) -> (r: Vec<u8>)
    ensures
        r@ == desktop_filename_spec(timestamp as nat),
{
    let mut digits_reversed: Vec<u8> = Vec::new();
    let mut n = timestamp;
    loop
        invariant_except_break
            n <= timestamp,
            decimal_bytes(timestamp as nat) == decimal_bytes(n as nat) + digits_reversed@.reverse(),
        ensures
            decimal_bytes(timestamp as nat) == digits_reversed@.reverse(),
        decreases n,
    {
        let ghost pre = digits_reversed@;
        let d: u8 = (48 + (n % 10)) as u8;
        proof {
            assert(48 + (n as int) % 10 < 256);
        }
        if n < 10 {
            digits_reversed.push(d);
            proof {
                assert(decimal_bytes(n as nat) =~= seq![d]);
                assert(digits_reversed@.reverse() =~= seq![d] + pre.reverse());
                assert(decimal_bytes(n as nat) + pre.reverse() =~= seq![d] + pre.reverse());
            }
            break;
        }
        digits_reversed.push(d);
        proof {
            assert(decimal_bytes(n as nat) =~= decimal_bytes((n as nat) / 10).push(d));
            assert(digits_reversed@.reverse() =~= seq![d] + pre.reverse());
            assert(decimal_bytes((n as nat) / 10).push(d) + pre.reverse() =~= decimal_bytes(
                (n as nat) / 10,
            ) + (seq![d] + pre.reverse()));
            assert((n as nat) / 10 == (n / 10) as nat);
        }
        n = n / 10;
    }
    let mut out: Vec<u8> = Vec::new();
    let prefix = "screenshot-";
    out.extend_from_slice(prefix.as_bytes());
    let mut i: usize = digits_reversed.len();
    proof {
        assert(digits_reversed@.skip(i as int).reverse() =~= Seq::<u8>::empty());
        assert(out@ =~= prefix.spec_bytes() + digits_reversed@.skip(i as int).reverse());
    }
    while i > 0
        invariant
            i <= digits_reversed@.len(),
            out@ == "screenshot-".spec_bytes() + digits_reversed@.skip(i as int).reverse(),
        decreases i,
    {
        let ghost pre = out@;
        i = i - 1;
        out.push(digits_reversed[i]);
        proof {
            assert(digits_reversed@.skip(i as int).reverse() =~= digits_reversed@.skip(
                i + 1,
            ).reverse().push(digits_reversed@[i as int]));
            assert(out@ =~= "screenshot-".spec_bytes() + digits_reversed@.skip(i as int).reverse());
        }
    }
    let suffix = ".png";
    out.extend_from_slice(suffix.as_bytes());
    proof {
        assert(digits_reversed@.skip(0).reverse() =~= digits_reversed@.reverse());
        assert(decimal_bytes(timestamp as nat) =~= digits_reversed@.reverse());
        assert(out@ =~= desktop_filename_spec(timestamp as nat));
    }
    out
}

} // verus!
