//! QR code generation and rendering: terminal half-block art, ASCII art,
//! SVG markup and RGBA pixel images, with PNG and JPEG encodings.
use image::ImageEncoder;
use vstd::prelude::*;
use vstd::string::StringSliceAdditionalSpecFns;

use crate::models::qr_item::{EccLevel, ExportFormat};
use crate::models::theme::AppTheme;
use crate::text::{decimal, decimal_of, join_lines, joined, occurs_at, push_all, push_str, string_of, texts};

verus! {

/// The module matrix of a QR code, row by row, `true` for a dark module.
pub struct QrMatrix {
    width: usize,
    modules: Vec<bool>,
}

/// The largest QR code (version 40) is 177 modules wide.
pub const MAX_QR_WIDTH: usize = 177;

impl QrMatrix {
    #[verifier::type_invariant]
    spec fn well_formed(self) -> bool {
        1 <= self.width <= MAX_QR_WIDTH && self.modules@.len() == self.width * self.width
    }

    /// The number of modules per side.
    pub closed spec fn size(self) -> nat {
        self.width as nat
    }

    /// The modules, row by row.
    pub closed spec fn cells(self) -> Seq<bool> {
        self.modules@
    }

    /// The module in column `x` and row `y` is dark.
    pub open spec fn dark(self, x: int, y: int) -> bool {
        self.cells()[y * self.size() + x]
    }

    /// A matrix of `width` by `width` modules given row by row; `None` unless
    /// `modules` has that many entries and the width is that of a QR code at
    /// most.
    pub fn from_modules(width: usize, modules: Vec<bool>) -> (r: Option<QrMatrix>)
        ensures
            r is Some <==> (1 <= width <= MAX_QR_WIDTH && modules@.len() == width * width),
            r matches Some(m) ==> m.size() == width && m.cells() == modules@,
    {
        if width < 1 || width > MAX_QR_WIDTH {
            return None;
        }
        proof {
            lemma_square_bound(width as int);
        }
        if modules.len() == width * width {
            Some(QrMatrix { width, modules })
        } else {
            None
        }
    }

    /// The number of modules per side.
    pub fn width(&self) -> (r: usize)
        ensures
            r == self.size(),
            1 <= r <= MAX_QR_WIDTH,
            self.cells().len() == r * r,
    {
        proof {
            use_type_invariant(self);
        }
        self.width
    }

    /// Whether the module in column `x` and row `y` is dark.
    pub fn is_dark(&self, x: usize, y: usize) -> (r: bool)
        requires
            x < self.size(),
            y < self.size(),
        ensures
            r == self.dark(x as int, y as int),
    {
        proof {
            use_type_invariant(self);
            lemma_cell_index(self.width as int, x as int, y as int);
            lemma_square_bound(self.width as int);
        }
        self.modules[y * self.width + x]
    }
}

/// The square of a QR width is small.
pub proof fn lemma_square_bound(w: int)
    requires
        0 <= w <= MAX_QR_WIDTH,
    ensures
        w * w <= 31329,
{
    assert(w * w <= 31329) by (nonlinear_arith)
        requires
            0 <= w <= 177,
    ;
}

/// A code of any QR width, drawn at a 512-pixel target with its quiet zone
/// (as the clipboard copies are), fits in memory: its side is at most 740
/// pixels.
pub proof fn lemma_clipboard_image_fits(m: QrMatrix)
    requires
        1 <= m.size() <= MAX_QR_WIDTH,
    ensures
        image_fits(m, 512, true),
{
    let total: int = m.size() + 2 * image_margin(true);
    let px: int = module_px(m, 512, true);
    assert(9 <= total <= 185);
    assert(512int / total <= 56) by (nonlinear_arith)
        requires
            9 <= total,
    ;
    assert(total * (512int / total) <= 512) by (nonlinear_arith)
        requires
            9 <= total,
    ;
    let side: int = image_side(m, 512, true);
    assert(side == total * px);
    assert(side <= 740) by (nonlinear_arith)
        requires
            side == total * px,
            total <= 185,
            px == 4 || (px == 512int / total && total * (512int / total) <= 512),
            9 <= total,
    ;
    assert(0 <= side);
    assert(side * side * 4 <= 740 * 740 * 4) by (nonlinear_arith)
        requires
            0 <= side <= 740,
    ;
}

/// Pushing onto a sequence of vectors pushes onto their texts.
pub proof fn lemma_texts_push(s: Seq<Vec<char>>, v: Vec<char>)
    ensures
        texts(s.push(v)) == texts(s).push(v@),
{
    assert(texts(s.push(v)) =~= texts(s).push(v@));
}

/// A row-major cell index lies within the matrix.
pub proof fn lemma_cell_index(w: int, x: int, y: int)
    requires
        0 <= x < w,
        0 <= y < w,
    ensures
        0 <= y * w + x < w * w,
{
    assert(0 <= y * w + x < w * w) by (nonlinear_arith)
        requires
            0 <= x < w,
            0 <= y < w,
    ;
}

// ---------------------------------------------------------------------------
// Encoding
// ---------------------------------------------------------------------------

/// What the qrcode crate makes of `data` at error-correction level `level`:
/// the width and the modules (row by row, dark as `true`), or the text of
/// its error.
pub uninterp spec fn qr_encoding(data: Seq<u8>, level: EccLevel) -> Result<(nat, Seq<bool>), Seq<char>>;

/// `qrcode::QrCode::with_error_correction_level`, read through `width()` and
/// `to_vec()`, the error through its `Display`. Reed-Solomon coding, mode
/// optimisation and masking take pages to state, so the outcome is named
/// `qr_encoding`. Beside the name the contract states what the crate's source
/// shows of every code: it picks a version from 1 to 40, hence a width
/// between 21 and 177, and it has width × width modules.
#[verifier::external_body]
#[allow(deprecated)]
fn encode_qr(data: &[u8], level: EccLevel) -> (r: Result<(usize, Vec<bool>), String>)
    ensures
        match r {
            Ok((w, m)) => qr_encoding(data@, level) == Ok::<(nat, Seq<bool>), Seq<char>>((w as nat, m@))
                && 21 <= w <= MAX_QR_WIDTH && m@.len() == w * w,
            Err(e) => qr_encoding(data@, level) == Err::<(nat, Seq<bool>), Seq<char>>(e@),
        },
{
    let ec = match level {
        EccLevel::Low => qrcode::EcLevel::L,
        EccLevel::Medium => qrcode::EcLevel::M,
        EccLevel::Quartile => qrcode::EcLevel::Q,
        EccLevel::High => qrcode::EcLevel::H,
    };
    match qrcode::QrCode::with_error_correction_level(data, ec) {
        Ok(code) => Ok((code.width(), code.to_vec())),
        Err(e) => Err(e.to_string()),
    }
}

/// What PNG encoding (the image crate's `PngEncoder`, default settings) makes
/// of an RGBA image, or the text of its error.
pub uninterp spec fn png_encoding(width: u32, height: u32, rgba: Seq<u8>) -> Result<Seq<u8>, Seq<char>>;

/// What JPEG encoding (the image crate's `JpegEncoder`, default quality)
/// makes of an RGB image, or the text of its error.
pub uninterp spec fn jpeg_encoding(width: u32, height: u32, rgb: Seq<u8>) -> Result<Seq<u8>, Seq<char>>;

/// The plain view of an encoder's result.
pub open spec fn bytes_view(r: Result<Vec<u8>, String>) -> Result<Seq<u8>, Seq<char>> {
    match r {
        Ok(b) => Ok(b@),
        Err(e) => Err(e@),
    }
}

/// `PngEncoder::write_image` on an RGBA buffer, into memory. The encoding is
/// named `png_encoding`. The encoder asserts that the buffer holds width ×
/// height pixels, which the contract requires.
#[verifier::external_body]
fn encode_png(width: u32, height: u32, rgba: &[u8]) -> (r: Result<Vec<u8>, String>)
    requires
        rgba@.len() == width * height * 4,
    ensures
        bytes_view(r) == png_encoding(width, height, rgba@),
{
    let mut out: Vec<u8> = Vec::new();
    let encoder = image::codecs::png::PngEncoder::new(&mut out);
    match encoder.write_image(rgba, width, height, image::ExtendedColorType::Rgba8) {
        Ok(()) => Ok(out),
        Err(e) => Err(e.to_string()),
    }
}

/// `JpegEncoder::write_image` on an RGB buffer, into memory. The encoding is
/// named `jpeg_encoding`. The encoder asserts that the buffer holds width ×
/// height pixels, which the contract requires.
#[verifier::external_body]
fn encode_jpeg(width: u32, height: u32, rgb: &[u8]) -> (r: Result<Vec<u8>, String>)
    requires
        rgb@.len() == width * height * 3,
    ensures
        bytes_view(r) == jpeg_encoding(width, height, rgb@),
{
    let mut out: Vec<u8> = Vec::new();
    let encoder = image::codecs::jpeg::JpegEncoder::new(&mut out);
    match encoder.write_image(rgb, width, height, image::ExtendedColorType::Rgb8) {
        Ok(()) => Ok(out),
        Err(e) => Err(e.to_string()),
    }
}

// ---------------------------------------------------------------------------
// Specifications of the renderings
// ---------------------------------------------------------------------------

/// The module at `(x, y)` of the matrix surrounded by a light margin of
/// `quiet` modules.
pub open spec fn cell(m: QrMatrix, quiet: int, x: int, y: int) -> bool {
    quiet <= x < m.size() + quiet && quiet <= y < m.size() + quiet && m.dark(x - quiet, y - quiet)
}

/// The half-block character showing two vertically stacked modules.
pub open spec fn half_block(top: bool, bottom: bool) -> char {
    if top && bottom {
        '\u{2588}'
    } else if top {
        '\u{2580}'
    } else if bottom {
        '\u{2584}'
    } else {
        ' '
    }
}

/// The terminal line showing rows `y` and `y + 1` of the bordered matrix.
pub open spec fn unicode_row(m: QrMatrix, quiet: int, total: int, y: int) -> Seq<char> {
    Seq::new(
        total as nat,
        |x: int| half_block(cell(m, quiet, x, y), y + 1 < total && cell(m, quiet, x, y + 1)),
    )
}

/// The margin of the terminal art: two modules with a border, none without.
pub open spec fn art_margin(border: bool) -> int {
    if border {
        2
    } else {
        0
    }
}

/// The lines of the terminal art, two module rows per line.
pub open spec fn unicode_lines(m: QrMatrix, border: bool) -> Seq<Seq<char>> {
    let q = art_margin(border);
    let total = m.size() + 2 * q;
    Seq::new(((total + 1) / 2) as nat, |k: int| unicode_row(m, q, total, 2 * k))
}

/// The terminal art of the matrix: half-block characters, two module rows
/// per line, lines joined by newlines.
pub open spec fn unicode_art(m: QrMatrix, border: bool) -> Seq<char> {
    joined(unicode_lines(m, border))
}

/// A line of spaces around the ASCII art.
pub open spec fn ascii_border(m: QrMatrix) -> Seq<char> {
    Seq::new(2 * (m.size() + 2), |i: int| ' ')
}

/// The ASCII-art line of module row `y`: two characters per module, `##`
/// for a dark one and two spaces for a light one, framed by two spaces on
/// each side.
pub open spec fn ascii_row(m: QrMatrix, y: int) -> Seq<char> {
    seq![' ', ' '] + Seq::new(
        2 * m.size(),
        |i: int|
            if m.dark(i / 2, y) {
                '#'
            } else {
                ' '
            },
    ) + seq![' ', ' ']
}

/// The lines of the ASCII art.
pub open spec fn ascii_lines(m: QrMatrix) -> Seq<Seq<char>> {
    seq![ascii_border(m)] + Seq::new(m.size(), |y: int| ascii_row(m, y)) + seq![ascii_border(m)]
}

/// The ASCII art of the matrix.
pub open spec fn ascii_art(m: QrMatrix) -> Seq<char> {
    joined(ascii_lines(m))
}

/// The lower-case hexadecimal digit of `d`, which is below sixteen.
pub open spec fn hex_digit(d: nat) -> char {
    if d < 10 {
        (d + 48) as char
    } else {
        (d + 87) as char
    }
}

/// `#rrggbb` for a colour.
pub open spec fn color_hex(c: (u8, u8, u8)) -> Seq<char> {
    seq![
        '#',
        hex_digit(c.0 as nat / 16),
        hex_digit(c.0 as nat % 16),
        hex_digit(c.1 as nat / 16),
        hex_digit(c.1 as nat % 16),
        hex_digit(c.2 as nat / 16),
        hex_digit(c.2 as nat % 16),
    ]
}

/// The margin of rendered images and SVG, in modules.
pub open spec fn image_margin(quiet_zone: bool) -> int {
    if quiet_zone {
        4
    } else {
        1
    }
}

/// The SVG path square of the dark module at `(x, y)`, shifted by the margin.
pub open spec fn svg_square(x: int, y: int, margin: int) -> Seq<char> {
    "M"@ + decimal((x + margin) as nat) + ","@ + decimal((y + margin) as nat) + "h1v1h-1z "@
}

/// The SVG path data of the first `n` modules, row by row.
pub open spec fn svg_path(m: QrMatrix, margin: int, n: int) -> Seq<char>
    decreases n,
{
    if n <= 0 {
        Seq::empty()
    } else {
        let i = n - 1;
        svg_path(m, margin, i) + if m.cells()[i] {
            svg_square(i % (m.size() as int), i / (m.size() as int), margin)
        } else {
            Seq::empty()
        }
    }
}

/// The SVG rendering of the matrix in the theme's colours.
pub open spec fn svg_text(m: QrMatrix, theme: AppTheme, quiet_zone: bool) -> Seq<char> {
    let margin = image_margin(quiet_zone);
    let total = (m.size() + 2 * margin) as nat;
    "<svg xmlns=\"http://www.w3.org/2000/svg\" viewBox=\"0 0 "@ + decimal(total) + " "@
        + decimal(total) + "\" width=\"512\" height=\"512\">\n<rect width=\"100%\" height=\"100%\" fill=\""@
        + color_hex(theme.bg_rgb()) + "\"/>\n<path fill=\""@ + color_hex(theme.fg_rgb())
        + "\" d=\""@ + svg_path(m, margin, (m.size() * m.size()) as int) + "\"/></svg>"@
}

/// The side of a module in image pixels: the target size shared among the
/// modules and the margins, at least four pixels.
pub open spec fn module_px(m: QrMatrix, target_size: u32, quiet_zone: bool) -> int {
    let total = m.size() + 2 * image_margin(quiet_zone);
    if (target_size as int) / total >= 4 {
        (target_size as int) / total
    } else {
        4
    }
}

/// The side of the rendered image in pixels.
pub open spec fn image_side(m: QrMatrix, target_size: u32, quiet_zone: bool) -> int {
    (m.size() + 2 * image_margin(quiet_zone)) * module_px(m, target_size, quiet_zone)
}

/// The pixel `(px, py)` of the image lies on a dark module.
pub open spec fn pixel_dark(m: QrMatrix, target_size: u32, quiet_zone: bool, px: int, py: int) -> bool {
    let s = module_px(m, target_size, quiet_zone);
    let mx = px / s - image_margin(quiet_zone);
    let my = py / s - image_margin(quiet_zone);
    0 <= mx < m.size() && 0 <= my < m.size() && m.dark(mx, my)
}

/// Channel `c` (red, green, blue, alpha) of the colour `rgb` at opacity `alpha`.
pub open spec fn channel(rgb: (u8, u8, u8), alpha: u8, c: int) -> u8 {
    if c == 0 {
        rgb.0
    } else if c == 1 {
        rgb.1
    } else if c == 2 {
        rgb.2
    } else {
        alpha
    }
}

/// Byte `i` of the rendered RGBA image, row by row: the theme's module colour
/// on dark modules, its background elsewhere (fully transparent black if
/// asked for).
pub open spec fn image_byte(
    m: QrMatrix,
    target_size: u32,
    quiet_zone: bool,
    theme: AppTheme,
    transparent_bg: bool,
    i: int,
) -> u8 {
    let side = image_side(m, target_size, quiet_zone);
    let p = i / 4;
    let c = i % 4;
    if pixel_dark(m, target_size, quiet_zone, p % side, p / side) {
        channel(theme.fg_rgb(), 255, c)
    } else if transparent_bg {
        0
    } else {
        channel(theme.bg_rgb(), 255, c)
    }
}

/// The RGBA bytes of the rendered image.
pub open spec fn image_bytes(
    m: QrMatrix,
    target_size: u32,
    quiet_zone: bool,
    theme: AppTheme,
    transparent_bg: bool,
) -> Seq<u8> {
    let side = image_side(m, target_size, quiet_zone);
    Seq::new(
        (side * side * 4) as nat,
        |i: int| image_byte(m, target_size, quiet_zone, theme, transparent_bg, i),
    )
}

/// The image shows the code as it is, not turned or mirrored: module
/// `(x, y)` (column `x` across, row `y` down) fills the `s` by `s` square of
/// pixels whose corner is `((x + margin) * s, (y + margin) * s)`, where `s` is
/// the module's side in pixels; every channel `c` of every pixel of that
/// square has the theme's module colour when the module is dark and the
/// background (or full transparency) when it is light. Pixels are stored
/// row by row, four bytes each.
pub proof fn law_image_shows_modules(
    m: QrMatrix,
    target_size: u32,
    quiet_zone: bool,
    theme: AppTheme,
    transparent_bg: bool,
    x: int,
    y: int,
    dx: int,
    dy: int,
    c: int,
)
    requires
        0 <= x < m.size(),
        0 <= y < m.size(),
        0 <= dx < module_px(m, target_size, quiet_zone),
        0 <= dy < module_px(m, target_size, quiet_zone),
        0 <= c < 4,
    ensures
        ({
            let s = module_px(m, target_size, quiet_zone);
            let margin = image_margin(quiet_zone);
            let side = image_side(m, target_size, quiet_zone);
            let px = (x + margin) * s + dx;
            let py = (y + margin) * s + dy;
            let bytes = image_bytes(m, target_size, quiet_zone, theme, transparent_bg);
            &&& 0 <= 4 * (py * side + px) + c < bytes.len()
            &&& bytes[4 * (py * side + px) + c] == if m.dark(x, y) {
                channel(theme.fg_rgb(), 255, c)
            } else if transparent_bg {
                0
            } else {
                channel(theme.bg_rgb(), 255, c)
            }
        }),
{
    let s = module_px(m, target_size, quiet_zone);
    let margin = image_margin(quiet_zone);
    let total = m.size() + 2 * margin;
    let side = image_side(m, target_size, quiet_zone);
    let px = (x + margin) * s + dx;
    let py = (y + margin) * s + dy;
    assert(s >= 4);
    assert(side == total * s);
    assert(0 <= px < side) by (nonlinear_arith)
        requires
            px == (x + margin) * s + dx,
            0 <= dx < s,
            0 <= x + margin,
            x + margin + 1 <= total,
            side == total * s,
            s > 0,
    ;
    assert(0 <= py < side) by (nonlinear_arith)
        requires
            py == (y + margin) * s + dy,
            0 <= dy < s,
            0 <= y + margin,
            y + margin + 1 <= total,
            side == total * s,
            s > 0,
    ;
    let p = py * side + px;
    assert(0 <= p < side * side) by (nonlinear_arith)
        requires
            p == py * side + px,
            0 <= px < side,
            0 <= py < side,
    ;
    let i = 4 * p + c;
    vstd::arithmetic::div_mod::lemma_fundamental_div_mod_converse(i, 4, p, c);
    vstd::arithmetic::div_mod::lemma_fundamental_div_mod_converse(p, side, py, px);
    vstd::arithmetic::div_mod::lemma_fundamental_div_mod_converse(px, s, x + margin, dx);
    vstd::arithmetic::div_mod::lemma_fundamental_div_mod_converse(py, s, y + margin, dy);
    assert(i / 4 == p && i % 4 == c);
    assert(p % side == px && p / side == py);
    assert(px / s - margin == x && py / s - margin == y);
    assert(pixel_dark(m, target_size, quiet_zone, px, py) == m.dark(x, y));
    let bytes = image_bytes(m, target_size, quiet_zone, theme, transparent_bg);
    assert(bytes[i] == image_byte(m, target_size, quiet_zone, theme, transparent_bg, i));
}

/// The terminal art shows the code the same way round, two module rows per
/// character: module `(x, y)` is the upper half of the character in column
/// `x + q` of line `(y + q) / 2` when its bordered row `y + q` is even, and
/// its lower half when that row is odd (`q` is the border); that half is lit
/// exactly when the module is dark.
pub proof fn law_unicode_shows_modules(m: QrMatrix, border: bool, x: int, y: int)
    requires
        0 <= x < m.size(),
        0 <= y < m.size(),
    ensures
        ({
            let q = art_margin(border);
            let line = unicode_lines(m, border)[(y + q) / 2];
            let c = line[x + q];
            &&& (y + q) / 2 < unicode_lines(m, border).len()
            &&& x + q < line.len()
            &&& (y + q) % 2 == 0 ==> (m.dark(x, y) <==> (c == '\u{2588}' || c == '\u{2580}'))
            &&& (y + q) % 2 == 1 ==> (m.dark(x, y) <==> (c == '\u{2588}' || c == '\u{2584}'))
        }),
{
    let q = art_margin(border);
    let total = m.size() + 2 * q;
    let k = (y + q) / 2;
    assert(0 <= k < (total + 1) / 2);
    assert(unicode_lines(m, border)[k] == unicode_row(m, q, total, 2 * k));
    assert(cell(m, q, x + q, y + q) == m.dark(x, y));
    if (y + q) % 2 == 0 {
        assert(2 * k == y + q);
    } else {
        assert(2 * k + 1 == y + q);
    }
}

/// The SVG path of the first `n` modules is a prefix of the path of more.
proof fn lemma_svg_path_prefix(m: QrMatrix, margin: int, n: int, k: int)
    requires
        0 <= n <= k,
    ensures
        svg_path(m, margin, k).len() >= svg_path(m, margin, n).len(),
        svg_path(m, margin, k).take(svg_path(m, margin, n).len() as int) == svg_path(m, margin, n),
    decreases k - n,
{
    if n < k {
        lemma_svg_path_prefix(m, margin, n, k - 1);
        let a = svg_path(m, margin, n);
        let b = svg_path(m, margin, k - 1);
        let c = svg_path(m, margin, k);
        assert(c.take(b.len() as int) =~= b);
        assert(c.take(a.len() as int) =~= b.take(a.len() as int));
    } else {
        assert(svg_path(m, margin, k).take(svg_path(m, margin, k).len() as int) =~= svg_path(m, margin, k));
    }
}

/// The SVG shows the code the same way round: every dark module `(x, y)`
/// (column `x` across, row `y` down) has its unit square in the path, at
/// horizontal position `x + margin` and vertical position `y + margin`.
pub proof fn law_svg_shows_modules(m: QrMatrix, quiet_zone: bool, x: int, y: int)
    requires
        0 <= x < m.size(),
        0 <= y < m.size(),
        m.cells().len() == m.size() * m.size(),
        m.dark(x, y),
    ensures
        ({
            let margin = image_margin(quiet_zone);
            let path = svg_path(m, margin, (m.size() * m.size()) as int);
            let square = "M"@ + decimal((x + margin) as nat) + ","@ + decimal((y + margin) as nat)
                + "h1v1h-1z "@;
            exists|at: int| #[trigger] occurs_at(path, square, at)
        }),
{
    let margin = image_margin(quiet_zone);
    let w = m.size() as int;
    let i = y * w + x;
    assert(0 <= i < w * w) by (nonlinear_arith)
        requires
            i == y * w + x,
            0 <= x < w,
            0 <= y < w,
    ;
    vstd::arithmetic::div_mod::lemma_fundamental_div_mod_converse(i, w, y, x);
    let before = svg_path(m, margin, i);
    let upto = svg_path(m, margin, i + 1);
    let square = svg_square(x, y, margin);
    assert(m.cells()[i]);
    assert(upto == before + square);
    lemma_svg_path_prefix(m, margin, i + 1, w * w);
    let path = svg_path(m, margin, w * w);
    let at = before.len() as int;
    assert(path.subrange(at, at + square.len()) =~= square) by {
        assert(path.take(upto.len() as int) == upto);
        assert forall|j: int| 0 <= j < square.len() implies path.subrange(at, at + square.len())[j]
            == square[j] by {
            assert(path[at + j] == path.take(upto.len() as int)[at + j]);
            assert(upto[at + j] == square[j]);
        }
    }
    assert(occurs_at(path, square, at));
}

/// The ASCII art shows the code the same way round: on the line of module
/// row `y` (after the border line), the two characters of column `x` (after
/// the two-space frame) are `##` exactly when the module is dark.
pub proof fn law_ascii_shows_modules(m: QrMatrix, x: int, y: int)
    requires
        0 <= x < m.size(),
        0 <= y < m.size(),
    ensures
        ascii_lines(m)[y + 1].len() == 2 * m.size() + 4,
        ascii_lines(m)[y + 1][2 * x + 2] == (if m.dark(x, y) {
            '#'
        } else {
            ' '
        }),
        ascii_lines(m)[y + 1][2 * x + 3] == ascii_lines(m)[y + 1][2 * x + 2],
{
    let row = ascii_row(m, y);
    assert(ascii_lines(m)[y + 1] == row);
    assert((2 * x) / 2 == x);
    assert((2 * x + 1) / 2 == x);
}

/// The rendered image fits in memory: its RGBA buffer length is a `usize`.
pub open spec fn image_fits(m: QrMatrix, target_size: u32, quiet_zone: bool) -> bool {
    let side = image_side(m, target_size, quiet_zone);
    side * side * 4 <= usize::MAX
}

/// An RGBA buffer without its alpha channel.
pub open spec fn rgb_of(rgba: Seq<u8>) -> Seq<u8> {
    Seq::new((rgba.len() / 4 * 3) as nat, |i: int| rgba[(i / 3) * 4 + i % 3])
}

// ---------------------------------------------------------------------------
// Images and exports
// ---------------------------------------------------------------------------

/// An RGBA image, row by row, four bytes per pixel.
#[derive(Debug, Clone)]
pub struct RgbaPixels {
    pub width: u32,
    pub height: u32,
    pub data: Vec<u8>,
}

/// A rendering ready to be written to a file.
#[derive(Debug, Clone)]
pub enum ExportPayload {
    Text(String),
    Binary(Vec<u8>),
}

/// The export of the matrix in `format`.
pub open spec fn export_of(
    m: QrMatrix,
    format: ExportFormat,
    target_size: u32,
    quiet_zone: bool,
    theme: AppTheme,
    transparent_bg: bool,
) -> Result<Seq<u8>, Seq<char>> {
    let side = image_side(m, target_size, quiet_zone) as u32;
    match format {
        ExportFormat::Png => png_encoding(
            side,
            side,
            image_bytes(m, target_size, quiet_zone, theme, transparent_bg),
        ),
        ExportFormat::Jpeg => jpeg_encoding(
            side,
            side,
            rgb_of(image_bytes(m, target_size, quiet_zone, theme, false)),
        ),
        _ => Err(Seq::empty()),
    }
}

/// The payload of an export: the text of a text format, the encoded image of
/// an image format.
pub open spec fn payload_agrees(
    r: Result<ExportPayload, String>,
    m: QrMatrix,
    format: ExportFormat,
    target_size: u32,
    quiet_zone: bool,
    theme: AppTheme,
    transparent_bg: bool,
) -> bool {
    match format {
        ExportFormat::Svg => r matches Ok(ExportPayload::Text(t)) && t@ == svg_text(
            m,
            theme,
            quiet_zone,
        ),
        ExportFormat::Ascii => r matches Ok(ExportPayload::Text(t)) && t@ == ascii_art(m),
        ExportFormat::Unicode => r matches Ok(ExportPayload::Text(t)) && t@ == unicode_art(m, true),
        _ => match r {
            Ok(ExportPayload::Binary(b)) => export_of(
                m,
                format,
                target_size,
                quiet_zone,
                theme,
                transparent_bg,
            ) == Ok::<Seq<u8>, Seq<char>>(b@),
            Ok(ExportPayload::Text(_)) => false,
            Err(e) => export_of(m, format, target_size, quiet_zone, theme, transparent_bg) == Err::<
                Seq<u8>,
                Seq<char>,
            >(e@),
        },
    }
}

/// Renders QR codes.
pub struct QrGenerator;

impl QrGenerator {
    /// The QR code of `data` at error-correction level `ecc`.
    pub fn create_qr(data: &str, ecc: EccLevel) -> (r: Result<QrMatrix, String>)
        ensures
            match qr_encoding(data.spec_bytes(), ecc) {
                Ok((w, cells)) => r matches Ok(m) && m.size() == w && m.cells() == cells,
                Err(e) => r matches Err(msg) && msg@ == "Failed to encode data into QR code: "@ + e,
            },
    {
        let bytes = data.as_bytes();
        match encode_qr(bytes, ecc) {
            Ok((w, modules)) => Ok(QrMatrix { width: w, modules }),
            Err(e) => {
                let mut v: Vec<char> = Vec::new();
                push_str(&mut v, "Failed to encode data into QR code: ");
                push_str(&mut v, e.as_str());
                Err(string_of(v.as_slice()))
            },
        }
    }

    /// The terminal art of `qr`: half-block characters, two module rows per
    /// line, with a two-module light border if `border`.
    pub fn render_unicode(qr: &QrMatrix, border: bool) -> (r: String)
        ensures
            r@ == unicode_art(*qr, border),
    {
        let w = qr.width();
        let quiet: usize = if border {
            2
        } else {
            0
        };
        let total = w + 2 * quiet;
        let count = (total + 1) / 2;
        let ghost spec_lines = unicode_lines(*qr, border);
        let mut lines: Vec<Vec<char>> = Vec::new();
        let mut k: usize = 0;
        while k < count
            invariant
                w == qr.size(),
                w <= MAX_QR_WIDTH,
                quiet == art_margin(border),
                total == w + 2 * quiet,
                count == (total + 1) / 2,
                spec_lines == unicode_lines(*qr, border),
                k <= count,
                texts(lines@) == spec_lines.take(k as int),
            decreases count - k,
        {
            let y = 2 * k;
            let mut row: Vec<char> = Vec::new();
            let mut x: usize = 0;
            while x < total
                invariant
                    w == qr.size(),
                    w <= MAX_QR_WIDTH,
                    quiet <= 2,
                    total == w + 2 * quiet,
                    y == 2 * k,
                    y < total,
                    x <= total,
                    row@ == unicode_row(*qr, quiet as int, total as int, y as int).take(x as int),
                decreases total - x,
            {
                let top = cell_at(qr, quiet, x, y);
                let bottom = if y + 1 < total {
                    cell_at(qr, quiet, x, y + 1)
                } else {
                    false
                };
                let c = if top && bottom {
                    '\u{2588}'
                } else if top {
                    '\u{2580}'
                } else if bottom {
                    '\u{2584}'
                } else {
                    ' '
                };
                row.push(c);
                proof {
                    assert(row@ =~= unicode_row(*qr, quiet as int, total as int, y as int).take(x + 1));
                }
                x = x + 1;
            }
            proof {
                assert(row@ =~= spec_lines[k as int]);
            }
            let ghost before = lines@;
            lines.push(row);
            proof {
                lemma_texts_push(before, row);
                assert(texts(lines@) =~= spec_lines.take(k + 1));
            }
            k = k + 1;
        }
        proof {
            assert(spec_lines.take(count as int) =~= spec_lines);
        }
        let out = join_lines(&lines);
        string_of(out.as_slice())
    }

    /// The ASCII art of `qr`: two characters per module, `##` for a dark one
    /// and two spaces for a light one, inside a margin of spaces.
    pub fn render_ascii(qr: &QrMatrix) -> (r: String)
        ensures
            r@ == ascii_art(*qr),
    {
        let w = qr.width();
        let ghost spec_lines = ascii_lines(*qr);
        let mut border: Vec<char> = Vec::new();
        let mut i: usize = 0;
        while i < 2 * (w + 2)
            invariant
                w == qr.size(),
                w <= MAX_QR_WIDTH,
                i <= 2 * (w + 2),
                border@ == ascii_border(*qr).take(i as int),
            decreases 2 * (w + 2) - i,
        {
            border.push(' ');
            proof {
                assert(border@ =~= ascii_border(*qr).take(i + 1));
            }
            i = i + 1;
        }
        proof {
            assert(border@ =~= ascii_border(*qr));
        }
        let mut lines: Vec<Vec<char>> = Vec::new();
        let first = copy_chars(&border);
        lines.push(first);
        proof {
            lemma_texts_push(Seq::empty(), first);
            assert(Seq::<Vec<char>>::empty().push(first) =~= lines@);
            assert(texts(lines@) =~= spec_lines.take(1));
        }
        let mut y: usize = 0;
        while y < w
            invariant
                w == qr.size(),
                w <= MAX_QR_WIDTH,
                spec_lines == ascii_lines(*qr),
                border@ == ascii_border(*qr),
                y <= w,
                texts(lines@) == spec_lines.take(y + 1),
            decreases w - y,
        {
            let mut row: Vec<char> = Vec::new();
            row.push(' ');
            row.push(' ');
            let mut x: usize = 0;
            let ghost mid = Seq::new(
                2 * qr.size(),
                |i: int|
                    if qr.dark(i / 2, y as int) {
                        '#'
                    } else {
                        ' '
                    },
            );
            while x < w
                invariant
                    w == qr.size(),
                    w <= MAX_QR_WIDTH,
                    y < w,
                    x <= w,
                    mid == Seq::new(
                        2 * qr.size(),
                        |i: int|
                            if qr.dark(i / 2, y as int) {
                                '#'
                            } else {
                                ' '
                            },
                    ),
                    row@ == seq![' ', ' '] + mid.take(2 * x),
                decreases w - x,
            {
                let c = if qr.is_dark(x, y) {
                    '#'
                } else {
                    ' '
                };
                row.push(c);
                row.push(c);
                proof {
                    assert(mid[2 * x as int] == c);
                    assert(mid[2 * x + 1] == c);
                    assert(row@ =~= seq![' ', ' '] + mid.take(2 * (x + 1)));
                }
                x = x + 1;
            }
            row.push(' ');
            row.push(' ');
            proof {
                assert(mid.take(2 * w) =~= mid);
                assert(row@ =~= ascii_row(*qr, y as int));
                assert(spec_lines[y + 1] == ascii_row(*qr, y as int));
            }
            let ghost before = lines@;
            lines.push(row);
            proof {
                lemma_texts_push(before, row);
                assert(texts(lines@) =~= spec_lines.take(y + 2));
            }
            y = y + 1;
        }
        let ghost before = lines@;
        lines.push(border);
        proof {
            lemma_texts_push(before, border);
            assert(spec_lines.take(w + 1).push(ascii_border(*qr)) =~= spec_lines);
            assert(texts(lines@) =~= spec_lines);
        }
        let out = join_lines(&lines);
        string_of(out.as_slice())
    }

    /// The SVG rendering of `qr`: a 512-pixel square in the theme's colours,
    /// one path square per dark module, with a margin of four modules if
    /// `quiet_zone` and one otherwise.
    pub fn render_svg_string(qr: &QrMatrix, theme: AppTheme, quiet_zone: bool) -> (r: String)
        ensures
            r@ == svg_text(*qr, theme, quiet_zone),
    {
        let w = qr.width();
        let margin: usize = if quiet_zone {
            4
        } else {
            1
        };
        let total = w + margin * 2;
        let mut v: Vec<char> = Vec::new();
        push_str(&mut v, "<svg xmlns=\"http://www.w3.org/2000/svg\" viewBox=\"0 0 ");
        push_all(&mut v, decimal_of(total as u64).as_slice());
        push_str(&mut v, " ");
        push_all(&mut v, decimal_of(total as u64).as_slice());
        push_str(&mut v, "\" width=\"512\" height=\"512\">\n<rect width=\"100%\" height=\"100%\" fill=\"");
        push_all(&mut v, hex_color(theme.qr_bg_rgb()).as_slice());
        push_str(&mut v, "\"/>\n<path fill=\"");
        push_all(&mut v, hex_color(theme.qr_fg_rgb()).as_slice());
        push_str(&mut v, "\" d=\"");
        let path = path_data(qr, margin);
        push_all(&mut v, path.as_slice());
        push_str(&mut v, "\"/></svg>");
        string_of(v.as_slice())
    }

    /// The RGBA image of `qr`: modules of equal pixel size (the target size
    /// shared among modules and margins, at least four pixels), the theme's
    /// colours, a margin of four modules if `quiet_zone` and one otherwise,
    /// and a transparent background if asked for.
    pub fn render_image(
        qr: &QrMatrix,
        target_size: u32,
        quiet_zone: bool,
        theme: AppTheme,
        transparent_bg: bool,
    ) -> (r: RgbaPixels)
        requires
            image_fits(*qr, target_size, quiet_zone),
        ensures
            r.width == image_side(*qr, target_size, quiet_zone),
            r.height == r.width,
            r.data@ == image_bytes(*qr, target_size, quiet_zone, theme, transparent_bg),
    {
        let w = qr.width();
        let margin: usize = if quiet_zone {
            4
        } else {
            1
        };
        let total = w + margin * 2;
        let share = target_size / (total as u32);
        let s: u32 = if share >= 4 {
            share
        } else {
            4
        };
        proof {
            assert(total as u32 * s <= 0xffff_ffff) by (nonlinear_arith)
                requires
                    s == share || (s == 4 && total <= 185),
                    share == target_size / (total as u32),
                    1 <= total <= 185,
            {
                if s == share {
                    assert((total as int) * ((target_size as int) / (total as int)) <= target_size);
                }
            }
        }
        let side: u32 = (total as u32) * s;
        let side_us = side as usize;
        let n: usize = side_us * side_us * 4;
        let fg = theme.qr_fg_rgb();
        let bg = theme.qr_bg_rgb();
        let ghost spec_bytes = image_bytes(*qr, target_size, quiet_zone, theme, transparent_bg);
        let mut data: Vec<u8> = Vec::new();
        let mut i: usize = 0;
        while i < n
            invariant
                w == qr.size(),
                margin == image_margin(quiet_zone),
                s == module_px(*qr, target_size, quiet_zone),
                side == image_side(*qr, target_size, quiet_zone),
                side_us == side,
                n == side * side * 4,
                fg == theme.fg_rgb(),
                bg == theme.bg_rgb(),
                spec_bytes == image_bytes(*qr, target_size, quiet_zone, theme, transparent_bg),
                i <= n,
                data@ == spec_bytes.take(i as int),
            decreases n - i,
        {
            let p = i / 4;
            let c = i % 4;
            let px = p % side_us;
            let py = p / side_us;
            let mx = px / (s as usize);
            let my = py / (s as usize);
            let dark = mx >= margin && mx - margin < w && my >= margin && my - margin < w
                && qr.is_dark(mx - margin, my - margin);
            let b: u8 = if dark {
                pick(fg, 255, c)
            } else if transparent_bg {
                0
            } else {
                pick(bg, 255, c)
            };
            proof {
                assert(b == image_byte(*qr, target_size, quiet_zone, theme, transparent_bg, i as int));
                assert(spec_bytes[i as int] == b);
            }
            data.push(b);
            proof {
                assert(data@ =~= spec_bytes.take(i + 1));
            }
            i = i + 1;
        }
        proof {
            assert(spec_bytes.take(n as int) =~= spec_bytes);
        }
        RgbaPixels { width: side, height: side, data }
    }

    /// Whether the image of `qr` at `target_size` fits in memory (its RGBA
    /// buffer length is a `usize`).
    pub fn fits_in_memory(qr: &QrMatrix, target_size: u32, quiet_zone: bool) -> (r: bool)
        ensures
            r == image_fits(*qr, target_size, quiet_zone),
    {
        let w = qr.width();
        let margin: u64 = if quiet_zone {
            4
        } else {
            1
        };
        let total: u64 = w as u64 + margin * 2;
        let share: u64 = target_size as u64 / total;
        let s: u64 = if share >= 4 {
            share
        } else {
            4
        };
        proof {
            assert(total * s <= 0xffff_ffff) by (nonlinear_arith)
                requires
                    s == share || (s == 4 && total <= 185),
                    share == (target_size as u64) / total,
                    1 <= total <= 185,
            {
                if s == share {
                    assert((total as int) * ((target_size as int) / (total as int)) <= target_size);
                }
            }
        }
        let side: u128 = (total * s) as u128;
        proof {
            assert(side * side * 4 <= 0x4_0000_0000_0000_0000u128) by (nonlinear_arith)
                requires
                    side <= 0xffff_ffff,
            ;
        }
        side * side * 4 <= usize::MAX as u128
    }

    /// The PNG encoding of the image of `qr` (see `render_image`).
    pub fn render_png_bytes(
        qr: &QrMatrix,
        target_size: u32,
        quiet_zone: bool,
        theme: AppTheme,
        transparent_bg: bool,
    ) -> (r: Result<Vec<u8>, String>)
        requires
            image_fits(*qr, target_size, quiet_zone),
        ensures
            bytes_view(r) == export_of(
                *qr,
                ExportFormat::Png,
                target_size,
                quiet_zone,
                theme,
                transparent_bg,
            ),
    {
        let img = Self::render_image(qr, target_size, quiet_zone, theme, transparent_bg);
        encode_png(img.width, img.height, img.data.as_slice())
    }

    /// The content of a file exporting `qr` in `format`: SVG markup, ASCII
    /// art or bordered terminal art for the text formats; the PNG encoding of
    /// the image, or the JPEG encoding of its opaque version, for the image
    /// formats.
    pub fn export_payload(
        qr: &QrMatrix,
        format: ExportFormat,
        target_size: u32,
        quiet_zone: bool,
        theme: AppTheme,
        transparent_bg: bool,
    ) -> (r: Result<ExportPayload, String>)
        requires
            (format == ExportFormat::Png || format == ExportFormat::Jpeg) ==> image_fits(
                *qr,
                target_size,
                quiet_zone,
            ),
        ensures
            payload_agrees(r, *qr, format, target_size, quiet_zone, theme, transparent_bg),
    {
        match format {
            ExportFormat::Png => {
                match Self::render_png_bytes(qr, target_size, quiet_zone, theme, transparent_bg) {
                    Ok(b) => Ok(ExportPayload::Binary(b)),
                    Err(e) => Err(e),
                }
            },
            ExportFormat::Jpeg => {
                let img = Self::render_image(qr, target_size, quiet_zone, theme, false);
                let rgb = rgb_bytes(&img.data);
                match encode_jpeg(img.width, img.height, rgb.as_slice()) {
                    Ok(b) => Ok(ExportPayload::Binary(b)),
                    Err(e) => Err(e),
                }
            },
            ExportFormat::Svg => Ok(ExportPayload::Text(Self::render_svg_string(qr, theme, quiet_zone))),
            ExportFormat::Ascii => Ok(ExportPayload::Text(Self::render_ascii(qr))),
            ExportFormat::Unicode => Ok(ExportPayload::Text(Self::render_unicode(qr, true))),
        }
    }
}

/// The module at `(x, y)` of `qr` inside a light margin of `quiet` modules.
fn cell_at(qr: &QrMatrix, quiet: usize, x: usize, y: usize) -> (r: bool)
    requires
        qr.size() + 2 * quiet < usize::MAX,
    ensures
        r == cell(*qr, quiet as int, x as int, y as int),
{
    let w = qr.width();
    if x >= quiet && x - quiet < w && y >= quiet && y - quiet < w {
        qr.is_dark(x - quiet, y - quiet)
    } else {
        false
    }
}

/// A copy of a character vector.
fn copy_chars(v: &Vec<char>) -> (r: Vec<char>)
    ensures
        r@ == v@,
{
    let mut r: Vec<char> = Vec::new();
    push_all(&mut r, v.as_slice());
    r
}

/// Channel `c` of the colour `rgb` at opacity `alpha`.
fn pick(rgb: (u8, u8, u8), alpha: u8, c: usize) -> (r: u8)
    requires
        c < 4,
    ensures
        r == channel(rgb, alpha, c as int),
{
    if c == 0 {
        rgb.0
    } else if c == 1 {
        rgb.1
    } else if c == 2 {
        rgb.2
    } else {
        alpha
    }
}

/// The lower-case hexadecimal digit of `d`.
fn hex(d: u8) -> (c: char)
    requires
        d < 16,
    ensures
        c == hex_digit(d as nat),
{
    if d < 10 {
        (d + 48) as char
    } else {
        (d + 87) as char
    }
}

/// `#rrggbb` for a colour.
fn hex_color(c: (u8, u8, u8)) -> (r: Vec<char>)
    ensures
        r@ == color_hex(c),
{
    let mut v: Vec<char> = Vec::new();
    v.push('#');
    v.push(hex(c.0 / 16));
    v.push(hex(c.0 % 16));
    v.push(hex(c.1 / 16));
    v.push(hex(c.1 % 16));
    v.push(hex(c.2 / 16));
    v.push(hex(c.2 % 16));
    proof {
        assert(v@ =~= color_hex(c));
    }
    v
}

/// The SVG path data of `qr` with the given margin.
fn path_data(qr: &QrMatrix, margin: usize) -> (r: Vec<char>)
    requires
        margin <= 4,
    ensures
        r@ == svg_path(*qr, margin as int, (qr.size() * qr.size()) as int),
{
    let w = qr.width();
    proof {
        lemma_square_bound(w as int);
    }
    let n = w * w;
    let mut v: Vec<char> = Vec::new();
    let mut i: usize = 0;
    while i < n
        invariant
            w == qr.size(),
            1 <= w <= MAX_QR_WIDTH,
            n == w * w,
            margin <= 4,
            qr.cells().len() == n,
            i <= n,
            v@ == svg_path(*qr, margin as int, i as int),
        decreases n - i,
    {
        let x = i % w;
        let y = i / w;
        proof {
            assert(y * w + x == i) by (nonlinear_arith)
                requires
                    x == i % w,
                    y == i / w,
                    w > 0,
            ;
            assert(y < w) by (nonlinear_arith)
                requires
                    y == i / w,
                    i < w * w,
                    w > 0,
            ;
        }
        if qr.is_dark(x, y) {
            push_str(&mut v, "M");
            push_all(&mut v, decimal_of((x + margin) as u64).as_slice());
            push_str(&mut v, ",");
            push_all(&mut v, decimal_of((y + margin) as u64).as_slice());
            push_str(&mut v, "h1v1h-1z ");
        } else {
            proof {
                assert(v@ + Seq::<char>::empty() =~= v@);
            }
        }
        i = i + 1;
    }
    v
}

/// The RGB bytes of an RGBA buffer.
fn rgb_bytes(rgba: &Vec<u8>) -> (r: Vec<u8>)
    ensures
        r@ == rgb_of(rgba@),
{
    let len = rgba.len();
    let n = len / 4 * 3;
    let mut v: Vec<u8> = Vec::new();
    let mut i: usize = 0;
    while i < n
        invariant
            len == rgba@.len(),
            n == rgba@.len() / 4 * 3,
            i <= n,
            v@ == rgb_of(rgba@).take(i as int),
        decreases n - i,
    {
        proof {
            assert((i / 3) * 4 + i % 3 < len && (i / 3) * 4 <= len) by (nonlinear_arith)
                requires
                    i < n,
                    n == len / 4 * 3,
            ;
        }
        v.push(rgba[(i / 3) * 4 + i % 3]);
        proof {
            assert(v@ =~= rgb_of(rgba@).take(i + 1));
        }
        i = i + 1;
    }
    proof {
        assert(rgb_of(rgba@).take(n as int) =~= rgb_of(rgba@));
    }
    v
}

} // verus!
