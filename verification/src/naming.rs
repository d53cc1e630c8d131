//! Default output file names.
//!
//! When no output path is given, the tool derives one from the input file's
//! stem: `<stem>_with_logo_<suffix>.png`, where the suffix is a fresh
//! 8-character random alphanumeric string. Names are byte strings here; the
//! caller converts from and to its path type.

use rand::Rng;
use vstd::prelude::*;

verus! {

/// Whether a byte is an ASCII letter or digit.
pub open spec fn is_alnum_byte(b: u8) -> bool {
    (65 <= b <= 90) || (97 <= b <= 122) || (48 <= b <= 57)
}

/// The infix between the stem and the random suffix, "_with_logo_".
pub open spec fn name_infix() -> Seq<u8> {
    seq![95u8, 119u8, 105u8, 116u8, 104u8, 95u8, 108u8, 111u8, 103u8, 111u8, 95u8]
}

/// The extension of a generated output name, ".png".
pub open spec fn name_extension() -> Seq<u8> {
    seq![46u8, 112u8, 110u8, 103u8]
}

/// A generated output name: stem, infix, suffix, extension.
pub open spec fn spec_output_name(stem: Seq<u8>, suffix: Seq<u8>) -> Seq<u8> {
    stem + name_infix() + suffix + name_extension()
}

/// Relies on rand's `Alphanumeric` distribution: every sampled byte is an
/// ASCII letter or digit, and sampling never ends, so taking `len` items
/// yields exactly `len` bytes.
#[verifier::external_body]
fn random_alnum_bytes(len: usize) -> (r: Vec<u8>)
    ensures
        r@.len() == len,
        forall|i: int| 0 <= i < r@.len() ==> is_alnum_byte(#[trigger] r@[i]),
{
    rand::thread_rng().sample_iter(&rand::distributions::Alphanumeric).take(len).collect()
}

/// Append every byte of `src` to `out`.
fn push_all(out: &mut Vec<u8>, src: &[u8])
    ensures
        final(out)@ == old(out)@ + src@,
{
    let mut i: usize = 0;
    while i < src.len()
        invariant
            i <= src@.len(),
            out@ == old(out)@ + src@.subrange(0, i as int),
        decreases src@.len() - i,
    {
        out.push(src[i]);
        proof {
            assert(out@ =~= old(out)@ + src@.subrange(0, i + 1));
        }
        i = i + 1;
    }
    proof {
        assert(old(out)@ + src@.subrange(0, src@.len() as int) =~= old(out)@ + src@);
    }
}

/// Build the output name for a given input stem and suffix:
/// `<stem>_with_logo_<suffix>.png`.
pub fn build_output_name(stem: &[u8], suffix: &[u8]) -> (r: Vec<u8>)
    ensures
        r@ == spec_output_name(stem@, suffix@),
{
    let mut out: Vec<u8> = Vec::new();
    push_all(&mut out, stem);
    let infix: [u8; 11] = [95u8, 119u8, 105u8, 116u8, 104u8, 95u8, 108u8, 111u8, 103u8, 111u8, 95u8];
    push_all(&mut out, infix.as_slice());
    push_all(&mut out, suffix);
    let extension: [u8; 4] = [46u8, 112u8, 110u8, 103u8];
    push_all(&mut out, extension.as_slice());
    proof {
        assert(infix@ =~= name_infix());
        assert(extension@ =~= name_extension());
        assert(out@ =~= spec_output_name(stem@, suffix@));
    }
    out
}

/// The default output name for an input stem: the stem, "_with_logo_", a
/// fresh 8-character random alphanumeric suffix, and ".png".
pub fn default_output_name(stem: &[u8]) -> (r: Vec<u8>)
    ensures
        exists|suffix: Seq<u8>|
            {
                &&& suffix.len() == 8
                &&& forall|i: int| 0 <= i < suffix.len() ==> is_alnum_byte(#[trigger] suffix[i])
                &&& r@ == spec_output_name(stem@, suffix)
            },
{
    let sfx = random_alnum_bytes(8);
    let out = build_output_name(stem, sfx.as_slice());
    proof {
        let suffix = sfx@;
        assert(suffix.len() == 8 && (forall|i: int|
            0 <= i < suffix.len() ==> is_alnum_byte(#[trigger] suffix[i])) && out@
            == spec_output_name(stem@, suffix));
    }
    out
}

} // verus!
