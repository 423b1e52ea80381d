//! Decisions about image assets: which files count as images, and the shape
//! of the hoop sprites drawn when no sprite file is found.

use vstd::prelude::*;
use vstd::string::StringSliceAdditionalSpecFns;

verus! {

/// ASCII lower case of one byte; other bytes stay as they are.
pub open spec fn ascii_lower(b: u8) -> u8 {
    if 65 <= b <= 90 {
        (b + 32) as u8
    } else {
        b
    }
}

/// ASCII lower case of a byte string.
pub open spec fn ascii_lowered(bytes: Seq<u8>) -> Seq<u8> {
    bytes.map_values(|b: u8| ascii_lower(b))
}

/// The lower-cased extension is `png`, `jpg` or `jpeg`.
pub open spec fn supported_extension(bytes: Seq<u8>) -> bool {
    let lower = ascii_lowered(bytes);
    ||| lower == seq![112u8, 110u8, 103u8]
    ||| lower == seq![106u8, 112u8, 103u8]
    ||| lower == seq![106u8, 112u8, 101u8, 103u8]
}

/// Law: letter case does not matter: two extensions that are equal once
/// lower-cased get the same answer, and an extension is supported exactly
/// when its lower-case form is.
pub proof fn law_extension_ignores_case(a: Seq<u8>, b: Seq<u8>)
    requires
        ascii_lowered(a) == ascii_lowered(b),
    ensures
        supported_extension(a) == supported_extension(b),
        supported_extension(a) == supported_extension(ascii_lowered(a)),
{
    assert(ascii_lowered(ascii_lowered(a)) =~= ascii_lowered(a));
}

fn lower_byte(b: u8) -> (r: u8)
    ensures
        r == ascii_lower(b),
{
    if b >= 65 && b <= 90 {
        b + 32
    } else {
        b
    }
}

/// Whether the bytes, lower-cased, equal `target`.
fn lowered_equals(bytes: &[u8], target: &[u8]) -> (equal: bool)
    ensures
        equal == (ascii_lowered(bytes@) == target@),
{
    if bytes.len() != target.len() {
        assert(ascii_lowered(bytes@).len() != target@.len());
        return false;
    }
    let n = bytes.len();
    let mut k: usize = 0;
    while k < n
        invariant
            n == bytes@.len(),
            n == target@.len(),
            k <= n,
            forall|m: int| 0 <= m < k ==> ascii_lower(#[trigger] bytes@[m]) == target@[m],
        decreases n - k,
    {
        if lower_byte(bytes[k]) != target[k] {
            assert(ascii_lowered(bytes@)[k as int] != target@[k as int]);
            return false;
        }
        k += 1;
    }
    assert(ascii_lowered(bytes@) =~= target@);
    true
}

/// Whether a file extension names an image the game loads: `png`, `jpg` or
/// `jpeg`, in any ASCII letter case.
pub fn is_supported_image_extension(extension: &str) -> (supported: bool)
    ensures
        supported == supported_extension(extension.spec_bytes()),
{
    let bytes = extension.as_bytes();
    let png: [u8; 3] = [112, 110, 103];
    let jpg: [u8; 3] = [106, 112, 103];
    let jpeg: [u8; 4] = [106, 112, 101, 103];
    let is_png = lowered_equals(bytes, png.as_slice());
    let is_jpg = lowered_equals(bytes, jpg.as_slice());
    let is_jpeg = lowered_equals(bytes, jpeg.as_slice());
    assert(png@ =~= seq![112u8, 110u8, 103u8]);
    assert(jpg@ =~= seq![106u8, 112u8, 103u8]);
    assert(jpeg@ =~= seq![106u8, 112u8, 101u8, 103u8]);
    is_png || is_jpg || is_jpeg
}

/// Opacity of the stand-in score animation frame `frame_index`: the last of
/// the three frames fades.
pub fn score_frame_alpha(frame_index: usize) -> (alpha: u8)
    ensures
        alpha == if frame_index == 2 {
            150u8
        } else {
            255u8
        },
{
    if frame_index == 2 {
        150
    } else {
        255
    }
}

/// Opacity of the net of a stand-in hoop sprite: 30 below the rim, not
/// below 0.
pub fn net_alpha(alpha: u8) -> (net: u8)
    ensures
        net == if alpha >= 30 {
            (alpha - 30) as u8
        } else {
            0u8
        },
{
    alpha.saturating_sub(30)
}

/// The five net strands of a stand-in hoop sprite, as line segments
/// `(x0, y0, x1, y1)` in a 64 x 64 image: they hang from the rim at y = 28;
/// their lower ends sway right on frame 1, left on frames 2 and later, and
/// drop 2 pixels while scoring.
pub open spec fn net_lines_of(frame_index: int, scored: bool) -> Seq<(i32, i32, i32, i32)> {
    let offset: int = if frame_index == 0 {
        0
    } else if frame_index == 1 {
        2
    } else {
        -2
    };
    let wave: int = if scored {
        2
    } else {
        0
    };
    seq![
        (22i32, 28i32, (26 + offset) as i32, (44 + wave) as i32),
        (27i32, 28i32, (30 + offset) as i32, (47 + wave) as i32),
        (32i32, 28i32, (32 + offset) as i32, (48 + wave) as i32),
        (37i32, 28i32, (34 + offset) as i32, (47 + wave) as i32),
        (42i32, 28i32, (38 + offset) as i32, (44 + wave) as i32),
    ]
}

/// Law: there are five strands, all hanging from the rim row y = 28. At rest
/// (frame 0, not scoring) the net is mirror-symmetric about the centre column
/// x = 32; frame 1 sways every lower end 2 pixels right of rest and later
/// frames 2 pixels left; scoring lowers every lower end by 2 pixels; the
/// upper ends never move.
pub proof fn law_net_lines_shape(frame_index: int, scored: bool, i: int)
    requires
        0 <= i < 5,
    ensures
        net_lines_of(frame_index, scored).len() == 5,
        net_lines_of(frame_index, scored)[i].1 == 28,
        net_lines_of(frame_index, scored)[i].0 == net_lines_of(0, false)[i].0,
        net_lines_of(0, false)[i].0 + net_lines_of(0, false)[4 - i].0 == 64,
        net_lines_of(0, false)[i].2 + net_lines_of(0, false)[4 - i].2 == 64,
        net_lines_of(0, false)[i].3 == net_lines_of(0, false)[4 - i].3,
        net_lines_of(frame_index, scored)[i].2 == net_lines_of(0, false)[i].2 + if frame_index
            == 0 {
            0int
        } else if frame_index == 1 {
            2int
        } else {
            -2int
        },
        net_lines_of(frame_index, scored)[i].3 == net_lines_of(0, false)[i].3 + if scored {
            2int
        } else {
            0int
        },
{
}

/// Net strands of a stand-in hoop sprite (see [`net_lines_of`]).
pub fn hoop_net_lines(frame_index: usize, scored: bool) -> (lines: Vec<(i32, i32, i32, i32)>)
    ensures
        lines@ == net_lines_of(frame_index as int, scored),
{
    let offset: i32 = if frame_index == 0 {
        0
    } else if frame_index == 1 {
        2
    } else {
        -2
    };
    let wave: i32 = if scored {
        2
    } else {
        0
    };
    let mut lines: Vec<(i32, i32, i32, i32)> = Vec::new();
    lines.push((22, 28, 26 + offset, 44 + wave));
    lines.push((27, 28, 30 + offset, 47 + wave));
    lines.push((32, 28, 32 + offset, 48 + wave));
    lines.push((37, 28, 34 + offset, 47 + wave));
    lines.push((42, 28, 38 + offset, 44 + wave));
    assert(lines@ =~= net_lines_of(frame_index as int, scored));
    lines
}

} // verus!
