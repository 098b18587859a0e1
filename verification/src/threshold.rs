use vstd::prelude::*;

use crate::color::Color;
use crate::color::lemma_triple_bytes;
use crate::color::lemma_triple_index;

verus! {

/// One thousand times the ITU-R BT.601 luma of an 8-bit RGB triple:
/// `1000 * (0.299 r + 0.587 g + 0.114 b)`. The weights sum to one, so the
/// scaled form states the brightness exactly, with no rounding; it ranges
/// over `0 ..= 255000`.
pub open spec fn brightness_milli(r: u8, g: u8, b: u8) -> int {
    299 * (r as int) + 587 * (g as int) + 114 * (b as int)
}

/// Whether a pixel of the given brightness is replaced by `include_color`.
///
/// With `inner` set, a pixel is included when its brightness lies in the
/// closed band `[lower, upper]`; otherwise it is included when its brightness
/// lies outside the open band, that is at or beyond either threshold. Both
/// comparisons are against the thresholds on the same scale, so `1000 *
/// lower` and `1000 * upper` face the milli-scaled brightness.
pub open spec fn pixel_included(r: u8, g: u8, b: u8, lower: u8, upper: u8, inner: bool) -> bool {
    let bm = brightness_milli(r, g, b);
    if inner {
        1000 * (lower as int) <= bm && bm <= 1000 * (upper as int)
    } else {
        bm >= 1000 * (upper as int) || bm <= 1000 * (lower as int)
    }
}

/// The color a pixel is rewritten to.
pub open spec fn replacement_color(
    r: u8,
    g: u8,
    b: u8,
    lower: u8,
    upper: u8,
    include_color: Color,
    exclude_color: Color,
    inner: bool,
) -> Color {
    if pixel_included(r, g, b, lower, upper, inner) {
        include_color
    } else {
        exclude_color
    }
}

/// The byte at position `i` of a thresholded buffer: the matching component
/// of the replacement color of the pixel triple that byte `i` belongs to.
pub open spec fn thresholded_byte(
    s: Seq<u8>,
    i: int,
    lower: u8,
    upper: u8,
    include_color: Color,
    exclude_color: Color,
    inner: bool,
) -> u8 {
    let p = i / 3;
    let c = replacement_color(
        s[3 * p],
        s[3 * p + 1],
        s[3 * p + 2],
        lower,
        upper,
        include_color,
        exclude_color,
        inner,
    );
    if i % 3 == 0 {
        c.r
    } else if i % 3 == 1 {
        c.g
    } else {
        c.b
    }
}

/// The whole thresholded buffer: a per-pixel map with no dependency between
/// pixels.
pub open spec fn threshold_seq(
    s: Seq<u8>,
    lower: u8,
    upper: u8,
    include_color: Color,
    exclude_color: Color,
    inner: bool,
) -> Seq<u8> {
    Seq::new(s.len(), |i: int| thresholded_byte(s, i, lower, upper, include_color, exclude_color, inner))
}

/// Replaces one pixel: returns `include_color` when the triple's
/// brightness satisfies the threshold band, `exclude_color` otherwise.
pub fn threshold_triple(
    r: u8,
    g: u8,
    b: u8,
    lower: u8,
    upper: u8,
    include_color: Color,
    exclude_color: Color,
    inner: bool,
) -> (out: Color)
    ensures
        out == replacement_color(r, g, b, lower, upper, include_color, exclude_color, inner),
{
    let bm: u32 = 299 * (r as u32) + 587 * (g as u32) + 114 * (b as u32);
    let lo: u32 = 1000 * (lower as u32);
    let hi: u32 = 1000 * (upper as u32);
    let included: bool = if inner {
        lo <= bm && bm <= hi
    } else {
        bm >= hi || bm <= lo
    };
    if included {
        include_color
    } else {
        exclude_color
    }
}

/// Brightness-based binary classification over a flat RGB buffer: every
/// pixel triple is overwritten with `include_color` when its BT.601
/// brightness satisfies the band `[lower, upper]` (inside it for `inner`,
/// at-or-outside it otherwise), and with `exclude_color` when it does not.
/// The buffer must hold whole triples.
pub fn threshold(
    pixels: &Vec<u8>,
    lower: u8,
    upper: u8,
    include_color: Color,
    exclude_color: Color,
    inner: bool,
) -> (out: Vec<u8>)
    requires
        pixels@.len() % 3 == 0,
    ensures
        out@ == threshold_seq(pixels@, lower, upper, include_color, exclude_color, inner),
{
    let len = pixels.len();
    let mut out: Vec<u8> = Vec::new();
    let mut p: usize = 0;
    while 3 * p < len
        invariant
            pixels@.len() == len,
            len % 3 == 0,
            3 * p <= len,
            out@.len() == 3 * p,
            forall|i: int|
                0 <= i < 3 * p ==> out@[i] == thresholded_byte(
                    pixels@,
                    i,
                    lower,
                    upper,
                    include_color,
                    exclude_color,
                    inner,
                ),
        decreases len - 3 * p,
    {
        proof {
            assert(3 * (p as int) + 2 < len) by (nonlinear_arith)
                requires
                    3 * (p as int) < len,
                    len % 3 == 0,
            ;
        }
        let c = threshold_triple(
            pixels[3 * p],
            pixels[3 * p + 1],
            pixels[3 * p + 2],
            lower,
            upper,
            include_color,
            exclude_color,
            inner,
        );
        out.push(c.r);
        out.push(c.g);
        out.push(c.b);
        proof {
            lemma_triple_index(p as int);
        }
        p = p + 1;
    }
    proof {
        assert(out@ =~= threshold_seq(pixels@, lower, upper, include_color, exclude_color, inner));
    }
    out
}

/// Idempotence law: once every pixel has collapsed to one of the two
/// replacement colors, thresholding again with the same parameters changes
/// nothing, provided the two colors are fixed points of the classification
/// themselves — `include_color`'s own brightness satisfies the band and
/// `exclude_color`'s does not. Without that proviso a second pass can
/// reclassify the freshly written colors.
pub proof fn lemma_threshold_idempotent(
    s: Seq<u8>,
    lower: u8,
    upper: u8,
    include_color: Color,
    exclude_color: Color,
    inner: bool,
)
    requires
        s.len() % 3 == 0,
        pixel_included(include_color.r, include_color.g, include_color.b, lower, upper, inner),
        !pixel_included(exclude_color.r, exclude_color.g, exclude_color.b, lower, upper, inner),
    ensures
        threshold_seq(
            threshold_seq(s, lower, upper, include_color, exclude_color, inner),
            lower,
            upper,
            include_color,
            exclude_color,
            inner,
        ) == threshold_seq(s, lower, upper, include_color, exclude_color, inner),
{
    let once = threshold_seq(s, lower, upper, include_color, exclude_color, inner);
    let twice = threshold_seq(once, lower, upper, include_color, exclude_color, inner);
    assert forall|i: int| 0 <= i < twice.len() implies twice[i] == once[i] by {
        lemma_triple_bytes(i, s.len() as int);
        lemma_triple_index(i / 3);
        let p = i / 3;
        let c = replacement_color(
            s[3 * p],
            s[3 * p + 1],
            s[3 * p + 2],
            lower,
            upper,
            include_color,
            exclude_color,
            inner,
        );
        assert(once[3 * p] == c.r && once[3 * p + 1] == c.g && once[3 * p + 2] == c.b);
        assert(replacement_color(
            c.r,
            c.g,
            c.b,
            lower,
            upper,
            include_color,
            exclude_color,
            inner,
        ) == c);
    }
    assert(twice =~= once);
}

/// Determinism-under-partitioning law: thresholding the concatenation of two
/// buffers of whole pixel triples equals concatenating the thresholded
/// halves, so any chunked, independently processed partition of a buffer
/// yields byte-identical output to one pass over the whole. Splitting a
/// partition piece by piece reduces it to this two-piece form.
pub proof fn lemma_threshold_partition(
    a: Seq<u8>,
    b: Seq<u8>,
    lower: u8,
    upper: u8,
    include_color: Color,
    exclude_color: Color,
    inner: bool,
)
    requires
        a.len() % 3 == 0,
        b.len() % 3 == 0,
    ensures
        threshold_seq(a + b, lower, upper, include_color, exclude_color, inner) == threshold_seq(
            a,
            lower,
            upper,
            include_color,
            exclude_color,
            inner,
        ) + threshold_seq(b, lower, upper, include_color, exclude_color, inner),
{
    let whole = threshold_seq(a + b, lower, upper, include_color, exclude_color, inner);
    let ta = threshold_seq(a, lower, upper, include_color, exclude_color, inner);
    let tb = threshold_seq(b, lower, upper, include_color, exclude_color, inner);
    let m = a.len() as int;
    assert forall|i: int| 0 <= i < whole.len() implies whole[i] == (ta + tb)[i] by {
        if i < m {
            lemma_triple_bytes(i, m);
            assert((a + b)[3 * (i / 3)] == a[3 * (i / 3)]);
            assert((a + b)[3 * (i / 3) + 1] == a[3 * (i / 3) + 1]);
            assert((a + b)[3 * (i / 3) + 2] == a[3 * (i / 3) + 2]);
        } else {
            let k = i - m;
            assert((m + k) / 3 == m / 3 + k / 3 && (m + k) % 3 == k % 3 && 3 * ((m + k) / 3) == m
                + 3 * (k / 3) && m / 3 * 3 == m) by (nonlinear_arith)
                requires
                    m >= 0,
                    k >= 0,
                    m % 3 == 0,
            ;
            lemma_triple_bytes(k, b.len() as int);
            assert((a + b)[m + 3 * (k / 3)] == b[3 * (k / 3)]);
            assert((a + b)[m + 3 * (k / 3) + 1] == b[3 * (k / 3) + 1]);
            assert((a + b)[m + 3 * (k / 3) + 2] == b[3 * (k / 3) + 2]);
            assert(whole[i] == thresholded_byte(
                b,
                k,
                lower,
                upper,
                include_color,
                exclude_color,
                inner,
            ));
        }
    }
    assert(whole =~= ta + tb);
}

/// A buffer assembled from whole-pixel pieces is itself whole pixels.
proof fn lemma_flatten_whole_triples(pieces: Seq<Seq<u8>>)
    requires
        forall|j: int| 0 <= j < pieces.len() ==> (#[trigger] pieces[j]).len() % 3 == 0,
    ensures
        pieces.flatten().len() % 3 == 0,
    decreases pieces.len(),
{
    if pieces.len() == 0 {
    } else {
        lemma_flatten_whole_triples(pieces.drop_first());
        assert((pieces.first().len() + pieces.drop_first().flatten().len()) % 3 == 0) by (
        nonlinear_arith)
            requires
                pieces.first().len() % 3 == 0,
                pieces.drop_first().flatten().len() % 3 == 0,
        ;
    }
}

/// Determinism-under-partitioning law over a whole partition: splitting a
/// buffer into any sequence of whole-pixel pieces and thresholding each
/// piece independently yields, reassembled in order, byte-identical output
/// to one pass over the whole buffer.
pub proof fn lemma_threshold_any_partition(
    pieces: Seq<Seq<u8>>,
    lower: u8,
    upper: u8,
    include_color: Color,
    exclude_color: Color,
    inner: bool,
)
    requires
        forall|j: int| 0 <= j < pieces.len() ==> (#[trigger] pieces[j]).len() % 3 == 0,
    ensures
        threshold_seq(pieces.flatten(), lower, upper, include_color, exclude_color, inner)
            == pieces.map_values(
            |piece: Seq<u8>| threshold_seq(piece, lower, upper, include_color, exclude_color, inner),
        ).flatten(),
    decreases pieces.len(),
{
    let f = (|piece: Seq<u8>|
        threshold_seq(piece, lower, upper, include_color, exclude_color, inner));
    if pieces.len() == 0 {
        assert(threshold_seq(pieces.flatten(), lower, upper, include_color, exclude_color, inner)
            =~= pieces.map_values(f).flatten());
    } else {
        let rest = pieces.drop_first();
        lemma_threshold_any_partition(rest, lower, upper, include_color, exclude_color, inner);
        lemma_flatten_whole_triples(rest);
        lemma_threshold_partition(
            pieces.first(),
            rest.flatten(),
            lower,
            upper,
            include_color,
            exclude_color,
            inner,
        );
        assert(pieces.map_values(f).drop_first() =~= rest.map_values(f));
        assert(pieces.map_values(f).flatten() == f(pieces.first()) + rest.map_values(f).flatten());
    }
}

/// Complementarity law for the two classification modes, for thresholds in
/// order (`lower < upper`): every brightness is included under at least one
/// of the two modes, and a brightness is included under both exactly when it
/// sits on a boundary, equal to `lower` or to `upper` (on the common
/// thousandfold scale).
pub proof fn lemma_outer_inner_complement(r: u8, g: u8, b: u8, lower: u8, upper: u8)
    requires
        lower < upper,
    ensures
        pixel_included(r, g, b, lower, upper, true) || pixel_included(r, g, b, lower, upper, false),
        (pixel_included(r, g, b, lower, upper, true) && pixel_included(
            r,
            g,
            b,
            lower,
            upper,
            false,
        )) <==> (brightness_milli(r, g, b) == 1000 * (lower as int) || brightness_milli(r, g, b)
            == 1000 * (upper as int)),
{
}

} // verus!
