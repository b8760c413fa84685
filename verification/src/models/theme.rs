//! Colour themes of the terminal interface and of rendered QR images.
//! Colours are RGB triples; the terminal front end turns them into its own
//! colour type.
use vstd::prelude::*;

verus! {

/// A colour theme.
#[derive(Debug, Clone, Copy, PartialEq, Eq, Structural)]
pub enum AppTheme {
    Cyberpunk,
    Monokai,
    Ocean,
    Sunset,
    Matrix,
    ClassicDark,
}

/// The number of themes.
pub const THEME_COUNT: usize = 6;

impl AppTheme {
    /// The themes in cycling order.
    pub open spec fn all_list() -> Seq<AppTheme> {
        seq![
            AppTheme::Cyberpunk,
            AppTheme::Monokai,
            AppTheme::Ocean,
            AppTheme::Sunset,
            AppTheme::Matrix,
            AppTheme::ClassicDark,
        ]
    }

    /// The themes in cycling order.
    pub fn all() -> (r: Vec<AppTheme>)
        ensures
            r@ == Self::all_list(),
    {
        let r = vec![
            AppTheme::Cyberpunk,
            AppTheme::Monokai,
            AppTheme::Ocean,
            AppTheme::Sunset,
            AppTheme::Matrix,
            AppTheme::ClassicDark,
        ];
        proof {
            assert(r@ =~= Self::all_list());
        }
        r
    }

    /// The theme's position in the cycle.
    pub open spec fn spec_index(self) -> nat {
        match self {
            AppTheme::Cyberpunk => 0,
            AppTheme::Monokai => 1,
            AppTheme::Ocean => 2,
            AppTheme::Sunset => 3,
            AppTheme::Matrix => 4,
            AppTheme::ClassicDark => 5,
        }
    }

    /// The theme's position in the cycle.
    pub fn index(&self) -> (r: usize)
        ensures
            r == self.spec_index(),
    {
        match self {
            AppTheme::Cyberpunk => 0,
            AppTheme::Monokai => 1,
            AppTheme::Ocean => 2,
            AppTheme::Sunset => 3,
            AppTheme::Matrix => 4,
            AppTheme::ClassicDark => 5,
        }
    }

    /// The theme after this one in the cycle.
    pub open spec fn spec_next(self) -> AppTheme {
        Self::all_list()[((self.spec_index() + 1) % (THEME_COUNT as nat)) as int]
    }

    /// The theme after this one in the cycle (the theme key's effect).
    pub fn next(&self) -> (r: AppTheme)
        ensures
            r == self.spec_next(),
    {
        let all = Self::all();
        all[(self.index() + 1) % THEME_COUNT]
    }

    /// The theme's name.
    pub open spec fn name_text(self) -> Seq<char> {
        match self {
            AppTheme::Cyberpunk => "Cyberpunk (Neon Magenta & Cyan)"@,
            AppTheme::Monokai => "Monokai (Yellow & Green)"@,
            AppTheme::Ocean => "Ocean (Deep Blue & Teal)"@,
            AppTheme::Sunset => "Sunset (Orange & Purple)"@,
            AppTheme::Matrix => "Matrix (Emerald Green)"@,
            AppTheme::ClassicDark => "Classic Dark (Slate & Amber)"@,
        }
    }

    /// The theme's name.
    pub fn name(&self) -> (r: &'static str)
        ensures
            r@ == self.name_text(),
    {
        match self {
            AppTheme::Cyberpunk => "Cyberpunk (Neon Magenta & Cyan)",
            AppTheme::Monokai => "Monokai (Yellow & Green)",
            AppTheme::Ocean => "Ocean (Deep Blue & Teal)",
            AppTheme::Sunset => "Sunset (Orange & Purple)",
            AppTheme::Matrix => "Matrix (Emerald Green)",
            AppTheme::ClassicDark => "Classic Dark (Slate & Amber)",
        }
    }

    /// The primary interface colour.
    pub open spec fn primary_rgb(self) -> (u8, u8, u8) {
        match self {
            AppTheme::Cyberpunk => (255, 0, 128),
            AppTheme::Monokai => (229, 181, 103),
            AppTheme::Ocean => (0, 180, 216),
            AppTheme::Sunset => (247, 127, 0),
            AppTheme::Matrix => (0, 255, 65),
            AppTheme::ClassicDark => (217, 119, 6),
        }
    }

    /// The primary interface colour.
    pub fn primary(&self) -> (r: (u8, u8, u8))
        ensures
            r == self.primary_rgb(),
    {
        match self {
            AppTheme::Cyberpunk => (255, 0, 128),
            AppTheme::Monokai => (229, 181, 103),
            AppTheme::Ocean => (0, 180, 216),
            AppTheme::Sunset => (247, 127, 0),
            AppTheme::Matrix => (0, 255, 65),
            AppTheme::ClassicDark => (217, 119, 6),
        }
    }

    /// The secondary interface colour.
    pub open spec fn secondary_rgb(self) -> (u8, u8, u8) {
        match self {
            AppTheme::Cyberpunk => (0, 240, 255),
            AppTheme::Monokai => (166, 226, 46),
            AppTheme::Ocean => (114, 9, 183),
            AppTheme::Sunset => (214, 40, 40),
            AppTheme::Matrix => (0, 143, 17),
            AppTheme::ClassicDark => (71, 85, 105),
        }
    }

    /// The secondary interface colour.
    pub fn secondary(&self) -> (r: (u8, u8, u8))
        ensures
            r == self.secondary_rgb(),
    {
        match self {
            AppTheme::Cyberpunk => (0, 240, 255),
            AppTheme::Monokai => (166, 226, 46),
            AppTheme::Ocean => (114, 9, 183),
            AppTheme::Sunset => (214, 40, 40),
            AppTheme::Matrix => (0, 143, 17),
            AppTheme::ClassicDark => (71, 85, 105),
        }
    }

    /// The accent interface colour.
    pub open spec fn accent_rgb(self) -> (u8, u8, u8) {
        match self {
            AppTheme::Cyberpunk => (255, 230, 0),
            AppTheme::Monokai => (102, 217, 239),
            AppTheme::Ocean => (72, 202, 228),
            AppTheme::Sunset => (252, 191, 73),
            AppTheme::Matrix => (57, 255, 20),
            AppTheme::ClassicDark => (245, 158, 11),
        }
    }

    /// The accent interface colour.
    pub fn accent(&self) -> (r: (u8, u8, u8))
        ensures
            r == self.accent_rgb(),
    {
        match self {
            AppTheme::Cyberpunk => (255, 230, 0),
            AppTheme::Monokai => (102, 217, 239),
            AppTheme::Ocean => (72, 202, 228),
            AppTheme::Sunset => (252, 191, 73),
            AppTheme::Matrix => (57, 255, 20),
            AppTheme::ClassicDark => (245, 158, 11),
        }
    }

    /// The border colour.
    pub open spec fn border_rgb(self) -> (u8, u8, u8) {
        match self {
            AppTheme::Cyberpunk => (70, 70, 100),
            AppTheme::Monokai => (80, 80, 80),
            AppTheme::Ocean => (40, 80, 120),
            AppTheme::Sunset => (120, 60, 80),
            AppTheme::Matrix => (0, 80, 20),
            AppTheme::ClassicDark => (51, 65, 85),
        }
    }

    /// The border colour.
    pub fn border(&self) -> (r: (u8, u8, u8))
        ensures
            r == self.border_rgb(),
    {
        match self {
            AppTheme::Cyberpunk => (70, 70, 100),
            AppTheme::Monokai => (80, 80, 80),
            AppTheme::Ocean => (40, 80, 120),
            AppTheme::Sunset => (120, 60, 80),
            AppTheme::Matrix => (0, 80, 20),
            AppTheme::ClassicDark => (51, 65, 85),
        }
    }

    /// The colour of dark modules in rendered images.
    pub open spec fn fg_rgb(self) -> (u8, u8, u8) {
        match self {
            AppTheme::Cyberpunk => (255, 0, 128),
            AppTheme::Monokai => (40, 40, 40),
            AppTheme::Ocean => (0, 119, 182),
            AppTheme::Sunset => (214, 40, 40),
            AppTheme::Matrix => (0, 200, 50),
            AppTheme::ClassicDark => (0, 0, 0),
        }
    }

    /// The colour of dark modules in rendered images.
    pub fn qr_fg_rgb(&self) -> (r: (u8, u8, u8))
        ensures
            r == self.fg_rgb(),
    {
        match self {
            AppTheme::Cyberpunk => (255, 0, 128),
            AppTheme::Monokai => (40, 40, 40),
            AppTheme::Ocean => (0, 119, 182),
            AppTheme::Sunset => (214, 40, 40),
            AppTheme::Matrix => (0, 200, 50),
            AppTheme::ClassicDark => (0, 0, 0),
        }
    }

    /// The background colour of rendered images.
    pub open spec fn bg_rgb(self) -> (u8, u8, u8) {
        match self {
            AppTheme::Cyberpunk => (15, 15, 25),
            AppTheme::Monokai => (248, 248, 242),
            AppTheme::Ocean => (237, 246, 249),
            AppTheme::Sunset => (253, 240, 213),
            AppTheme::Matrix => (5, 20, 5),
            AppTheme::ClassicDark => (255, 255, 255),
        }
    }

    /// The background colour of rendered images.
    pub fn qr_bg_rgb(&self) -> (r: (u8, u8, u8))
        ensures
            r == self.bg_rgb(),
    {
        match self {
            AppTheme::Cyberpunk => (15, 15, 25),
            AppTheme::Monokai => (248, 248, 242),
            AppTheme::Ocean => (237, 246, 249),
            AppTheme::Sunset => (253, 240, 213),
            AppTheme::Matrix => (5, 20, 5),
            AppTheme::ClassicDark => (255, 255, 255),
        }
    }
}

/// Cycling through the themes `THEME_COUNT` times comes back to the start,
/// and every theme is reached on the way.
pub proof fn law_theme_cycle(t: AppTheme)
    ensures
        t.spec_next().spec_next().spec_next().spec_next().spec_next().spec_next() == t,
        t.spec_next() != t,
{
}

} // verus!
