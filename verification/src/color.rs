use vstd::prelude::*;
use vstd::std_specs::convert::FromSpecImpl;

verus! {

/// What a colour picker reports: it was opened, a colour was chosen, or it
/// was closed without a choice.
#[derive(Debug, Clone, PartialEq)]
pub enum ColorPickerMessage<C> {
    Choose,
    Submit(C),
    Cancel,
}

/// Red channel of a colour packed as `0xAARRGGBB`.
pub open spec fn red(hex: u32) -> u8 {
    ((hex / 0x1_0000) % 0x100) as u8
}

/// Green channel of a colour packed as `0xAARRGGBB`.
pub open spec fn green(hex: u32) -> u8 {
    ((hex / 0x100) % 0x100) as u8
}

/// Blue channel of a colour packed as `0xAARRGGBB`.
pub open spec fn blue(hex: u32) -> u8 {
    (hex % 0x100) as u8
}

/// Calls `Srgb::<u8>::from` of the palette crate, as wassily hands it on,
/// and takes the colour apart with `into_components`. The conversion reads
/// the number as `0xAARRGGBB`, most significant byte first, and drops the
/// alpha byte; the contract gives the three bytes that are left.
#[verifier::external_body]
fn components(hex: u32) -> (rgb: (u8, u8, u8))
    ensures
        rgb == (red(hex), green(hex), blue(hex)),
{
    wassily::prelude::Srgb::<u8>::from(hex).into_components()
}

/// `colors` holds, for each packed colour of `hex`, what `color` makes of
/// its red, green and blue channels at full opacity.
pub open spec fn colored<C, F: Fn(u8, u8, u8, u8) -> C>(
    color: F,
    hex: Seq<u32>,
    colors: Seq<C>,
) -> bool {
    &&& colors.len() == hex.len()
    &&& forall|i: int|
        0 <= i < hex.len() ==> call_ensures(
            color,
            (red(hex[i]), green(hex[i]), blue(hex[i]), 255u8),
            #[trigger] colors[i],
        )
}

/// Turns packed `0xRRGGBB` colours into colours of the caller's kind, each
/// opaque; `color` builds one from red, green, blue and alpha.
pub fn hex_to_color<C, F: Fn(u8, u8, u8, u8) -> C>(hex: Vec<u32>, color: &F) -> (colors: Vec<C>)
    requires
        forall|r: u8, g: u8, b: u8, a: u8| call_requires(*color, (r, g, b, a)),
    ensures
        colored(*color, hex@, colors@),
{
    let mut colors: Vec<C> = Vec::new();
    let mut i: usize = 0;
    while i < hex.len()
        invariant
            forall|r: u8, g: u8, b: u8, a: u8| call_requires(*color, (r, g, b, a)),
            i <= hex@.len(),
            colors@.len() == i,
            forall|k: int|
                0 <= k < i ==> call_ensures(
                    *color,
                    (red(hex@[k]), green(hex@[k]), blue(hex@[k]), 255u8),
                    #[trigger] colors@[k],
                ),
        decreases hex@.len() - i,
    {
        let (r, g, b) = components(hex[i]);
        colors.push(color(r, g, b, 255));
        i += 1;
    }
    colors
}

/// The number of pairs `(a, b)` with `a <= b < n` whose first member is
/// below `i`.
pub open spec fn pairs_before(n: int, i: int) -> int {
    i * n - i * (i - 1) / 2
}

/// Where the blend of entries `i` and `j` of a palette of `n` colours
/// stands in its expansion.
pub open spec fn slot(n: int, i: int, j: int) -> int {
    n + pairs_before(n, i) + (j - i)
}

/// `out` is the expansion of `palette`: the palette itself, then for each
/// pair `i <= j` of its entries what `mix` makes of the two, pairs with a
/// smaller `i` first and, for one `i`, a smaller `j` first.
pub open spec fn expanded<C, M: Fn(C, C) -> C>(mix: M, palette: Seq<C>, out: Seq<C>) -> bool {
    let n = palette.len() as int;
    &&& out.len() == n + n * (n + 1) / 2
    &&& forall|i: int| 0 <= i < n ==> #[trigger] out[i] == palette[i]
    &&& forall|i: int, j: int|
        0 <= i <= j < n ==> n <= #[trigger] slot(n, i, j) < out.len() && call_ensures(
            mix,
            (palette[i], palette[j]),
            out[slot(n, i, j)],
        )
}

proof fn lemma_even_product(n: nat)
    ensures
        (n * (n + 1)) % 2 == 0,
    decreases n,
{
    if n > 0 {
        lemma_even_product((n - 1) as nat);
        assert(n * (n + 1) == (n - 1) * n + 2 * n) by (nonlinear_arith);
    }
}

proof fn lemma_pairs_step(n: nat, i: int)
    ensures
        pairs_before(n as int, i + 1) == pairs_before(n as int, i) + n - i,
        pairs_before(n as int, 0) == 0,
        pairs_before(n as int, n as int) == n * (n + 1) / 2,
{
    assert((i + 1) * n == i * n + n) by (nonlinear_arith);
    assert((i + 1) * i == i * (i - 1) + 2 * i) by (nonlinear_arith);
    if n > 0 {
        lemma_even_product((n - 1) as nat);
        assert(n * (n + 1) == (n - 1) * n + 2 * n) by (nonlinear_arith);
        assert(n * (n - 1) == (n - 1) * n) by (nonlinear_arith);
        assert(n * n == (n - 1) * n + n) by (nonlinear_arith);
    }
}

/// Widens a palette by the blend of every pair of its colours, each colour
/// paired with itself too.
pub fn expand_palette<C: Copy, M: Fn(C, C) -> C>(palette: Vec<C>, mix: &M) -> (result: Vec<C>)
    requires
        forall|a: C, b: C| call_requires(*mix, (a, b)),
    ensures
        expanded(*mix, palette@, result@),
{
    let ghost given = palette@;
    let mut result = palette;
    let n = result.len();
    let mut i: usize = 0;
    proof {
        lemma_pairs_step(n as nat, 0);
    }
    while i < n
        invariant
            forall|a: C, b: C| call_requires(*mix, (a, b)),
            n == given.len(),
            i <= n,
            result@.len() == n + pairs_before(n as int, i as int),
            result@.len() >= n,
            forall|k: int| 0 <= k < n ==> #[trigger] result@[k] == given[k],
            forall|a: int, b: int|
                0 <= a < i && a <= b < n ==> n <= #[trigger] slot(n as int, a, b) < result@.len()
                    && call_ensures(*mix, (given[a], given[b]), result@[slot(n as int, a, b)]),
        decreases n - i,
    {
        let mut j: usize = i;
        while j < n
            invariant
                forall|a: C, b: C| call_requires(*mix, (a, b)),
                n == given.len(),
                i < n,
                i <= j <= n,
                result@.len() == n + pairs_before(n as int, i as int) + (j - i),
                result@.len() >= n,
                forall|k: int| 0 <= k < n ==> #[trigger] result@[k] == given[k],
                forall|a: int, b: int|
                    0 <= a < i && a <= b < n ==> n <= #[trigger] slot(n as int, a, b)
                        < result@.len() && call_ensures(
                        *mix,
                        (given[a], given[b]),
                        result@[slot(n as int, a, b)],
                    ),
                forall|b: int|
                    i <= b < j ==> n <= #[trigger] slot(n as int, i as int, b) < result@.len()
                        && call_ensures(
                        *mix,
                        (given[i as int], given[b]),
                        result@[slot(n as int, i as int, b)],
                    ),
            decreases n - j,
        {
            let c = mix(result[i], result[j]);
            assert(result@.len() == slot(n as int, i as int, j as int));
            result.push(c);
            j += 1;
        }
        proof {
            lemma_pairs_step(n as nat, i as int);
        }
        i += 1;
    }
    proof {
        lemma_pairs_step(n as nat, n as int);
    }
    result
}

/// The named palettes.
#[derive(Debug, Clone, Copy, PartialEq, Eq, Hash, Structural)]
pub enum Palettes {
    Royalty,
    DeltaBlues,
    PinotNoir,
    Algae,
    Scepter,
    Fire,
    Perfume,
    Rose,
    GrayScale,
    PorcoRosso,
    SpiritedAway,
    Totoro,
}

impl Palettes {
    /// The name shown for the palette.
    pub open spec fn label(self) -> Seq<char> {
        match self {
            Palettes::Royalty => "Royalty"@,
            Palettes::DeltaBlues => "Delta Blues"@,
            Palettes::PinotNoir => "Pinot Noir"@,
            Palettes::Algae => "Algae"@,
            Palettes::Scepter => "Scepter"@,
            Palettes::Fire => "Fire"@,
            Palettes::Perfume => "Perfume"@,
            Palettes::Rose => "Rose"@,
            Palettes::GrayScale => "Gray Scale"@,
            Palettes::PorcoRosso => "Porco Rosso"@,
            Palettes::SpiritedAway => "Spirited Away"@,
            Palettes::Totoro => "Totoro"@,
        }
    }

    pub fn to_string(&self) -> (s: String)
        ensures
            s@ == self.label(),
    {
        match self {
            Palettes::Royalty => "Royalty".to_owned(),
            Palettes::DeltaBlues => "Delta Blues".to_owned(),
            Palettes::PinotNoir => "Pinot Noir".to_owned(),
            Palettes::Algae => "Algae".to_owned(),
            Palettes::Scepter => "Scepter".to_owned(),
            Palettes::Fire => "Fire".to_owned(),
            Palettes::Perfume => "Perfume".to_owned(),
            Palettes::Rose => "Rose".to_owned(),
            Palettes::GrayScale => "Gray Scale".to_owned(),
            Palettes::PorcoRosso => "Porco Rosso".to_owned(),
            Palettes::SpiritedAway => "Spirited Away".to_owned(),
            Palettes::Totoro => "Totoro".to_owned(),
        }
    }

    /// The anchor colours of the palette, packed as `0xRRGGBB`.
    pub open spec fn anchors(self) -> Seq<u32> {
        match self {
            Palettes::Royalty => seq![0x1C4572u32, 0x84561B, 0x6D3E32, 0x0A0E20],
            Palettes::DeltaBlues => seq![0x003566u32, 0x000000, 0x008080],
            Palettes::PinotNoir => seq![0x701C1Cu32, 0x1A1717, 0x77806E],
            Palettes::Algae => seq![0xA3B18Au32, 0x588157, 0x3A5A40, 0x344E41],
            Palettes::Scepter => seq![0xB7A635u32, 0x4E1406],
            Palettes::Fire => seq![0x621708u32, 0x941B0C, 0xBC3908, 0xF6AA1C],
            Palettes::Perfume => seq![0xD9798Bu32, 0x8C4962, 0x59364A, 0x594832],
            Palettes::Rose => seq![0xBF2642u32, 0x731F2E, 0x400C16],
            Palettes::GrayScale => seq![0x000000u32, 0xE6E6E6, 0xA0A0A0],
            Palettes::PorcoRosso => seq![0x002B75u32, 0x862A23, 0xBD8878],
            Palettes::SpiritedAway => seq![0xD9A404u32, 0xF2B988, 0xBF3030, 0x0D0D0D],
            Palettes::Totoro => seq![0x6A7AB2u32, 0xF27E9D, 0x454259, 0x9B8660],
        }
    }

    pub fn hex(&self) -> (hex: Vec<u32>)
        ensures
            hex@ == self.anchors(),
    {
        let hex = match self {
            Palettes::Royalty => vec![0x1C4572u32, 0x84561B, 0x6D3E32, 0x0A0E20],
            Palettes::DeltaBlues => vec![0x003566u32, 0x000000, 0x008080],
            Palettes::PinotNoir => vec![0x701C1Cu32, 0x1A1717, 0x77806E],
            Palettes::Algae => vec![0xA3B18Au32, 0x588157, 0x3A5A40, 0x344E41],
            Palettes::Scepter => vec![0xB7A635u32, 0x4E1406],
            Palettes::Fire => vec![0x621708u32, 0x941B0C, 0xBC3908, 0xF6AA1C],
            Palettes::Perfume => vec![0xD9798Bu32, 0x8C4962, 0x59364A, 0x594832],
            Palettes::Rose => vec![0xBF2642u32, 0x731F2E, 0x400C16],
            Palettes::GrayScale => vec![0x000000u32, 0xE6E6E6, 0xA0A0A0],
            Palettes::PorcoRosso => vec![0x002B75u32, 0x862A23, 0xBD8878],
            Palettes::SpiritedAway => vec![0xD9A404u32, 0xF2B988, 0xBF3030, 0x0D0D0D],
            Palettes::Totoro => vec![0x6A7AB2u32, 0xF27E9D, 0x454259, 0x9B8660],
        };
        assert(hex@ =~= self.anchors());
        hex
    }
}

/// `out` is a working palette built from packed anchor colours: the
/// anchors as `color` makes them, expanded with `mix`.
pub open spec fn palette_of<C, F: Fn(u8, u8, u8, u8) -> C, M: Fn(C, C) -> C>(
    color: F,
    mix: M,
    hex: Seq<u32>,
    out: Seq<C>,
) -> bool {
    exists|raw: Seq<C>| colored(color, hex, raw) && expanded(mix, raw, out)
}

/// Builds a working palette from packed `0xRRGGBB` anchor colours.
pub fn make_palette<C: Copy, F: Fn(u8, u8, u8, u8) -> C, M: Fn(C, C) -> C>(
    hex: Vec<u32>,
    color: &F,
    mix: &M,
) -> (palette: Vec<C>)
    requires
        forall|r: u8, g: u8, b: u8, a: u8| call_requires(*color, (r, g, b, a)),
        forall|a: C, b: C| call_requires(*mix, (a, b)),
    ensures
        palette_of(*color, *mix, hex@, palette@),
        palette@.len() == hex@.len() + hex@.len() * (hex@.len() + 1) / 2,
{
    let raw_palette = hex_to_color(hex, color);
    expand_palette(raw_palette, mix)
}

/// Builds the working palette of a named palette.
pub fn color_palette<C: Copy, F: Fn(u8, u8, u8, u8) -> C, M: Fn(C, C) -> C>(
    pal: Palettes,
    color: &F,
    mix: &M,
) -> (palette: Vec<C>)
    requires
        forall|r: u8, g: u8, b: u8, a: u8| call_requires(*color, (r, g, b, a)),
        forall|a: C, b: C| call_requires(*mix, (a, b)),
    ensures
        palette_of(*color, *mix, pal.anchors(), palette@),
{
    make_palette(pal.hex(), color, mix)
}

/// Where the colours of the curves come from: a named palette or a scale
/// between two anchor colours.
#[derive(Debug, Clone, Copy, PartialEq, Eq, Hash, Structural)]
pub enum ColorMode {
    Palette,
    Scale,
}

impl ColorMode {
    /// The name shown for the mode.
    pub open spec fn label(self) -> Seq<char> {
        match self {
            ColorMode::Palette => "Palette"@,
            ColorMode::Scale => "Color Scale"@,
        }
    }
}

impl From<ColorMode> for String {
    fn from(mode: ColorMode) -> (s: String)
        ensures
            s@ == mode.label(),
    {
        match mode {
            ColorMode::Palette => "Palette".to_owned(),
            ColorMode::Scale => "Color Scale".to_owned(),
        }
    }
}

impl FromSpecImpl<ColorMode> for String {
    open spec fn obeys_from_spec() -> bool {
        false
    }

    open spec fn from_spec(mode: ColorMode) -> String {
        arbitrary()
    }
}

/// A change to the colour controls.
#[derive(Debug, Clone, PartialEq)]
pub enum ColorMessage<C> {
    Mode(ColorMode),
    Anchor1(ColorPickerMessage<C>),
    Anchor2(ColorPickerMessage<C>),
    PaletteChoice(Palettes),
    Null,
}

/// The colour settings: the mode, the two anchors of the scale with the
/// state of their pickers, the palette chosen, and whether the picture is
/// out of date.
#[derive(Debug, Clone, PartialEq)]
pub struct ColorControls<C> {
    pub mode: Option<ColorMode>,
    pub anchor1: C,
    pub anchor2: C,
    pub show_picker_1: bool,
    pub show_picker_2: bool,
    pub palette_choice: Option<Palettes>,
    pub dirty: bool,
}

impl<C> ColorControls<C> {
    pub fn new(
        mode: Option<ColorMode>,
        anchor1: C,
        anchor2: C,
        show_picker_1: bool,
        show_picker_2: bool,
        palette_choice: Option<Palettes>,
        dirty: bool,
    ) -> (c: Self)
        ensures
            c == (ColorControls {
                mode,
                anchor1,
                anchor2,
                show_picker_1,
                show_picker_2,
                palette_choice,
                dirty,
            }),
    {
        Self { mode, anchor1, anchor2, show_picker_1, show_picker_2, palette_choice, dirty }
    }

    pub fn set_anchor1(self, color: C) -> (c: Self)
        ensures
            c == (ColorControls { anchor1: color, ..self }),
    {
        let mut c = self;
        c.anchor1 = color;
        c
    }

    pub fn set_anchor2(self, color: C) -> (c: Self)
        ensures
            c == (ColorControls { anchor2: color, ..self }),
    {
        let mut c = self;
        c.anchor2 = color;
        c
    }

    pub fn set_mode(self, mode: ColorMode) -> (c: Self)
        ensures
            c == (ColorControls { mode: Some(mode), ..self }),
    {
        let mut c = self;
        c.mode = Some(mode);
        c
    }

    pub fn set_palette_choice(self, pal: Palettes) -> (c: Self)
        ensures
            c == (ColorControls { palette_choice: Some(pal), ..self }),
    {
        let mut c = self;
        c.palette_choice = Some(pal);
        c
    }

    /// The controls after `message`. A change of mode or palette, a colour
    /// submitted and `Null` leave them dirty; opening or cancelling a picker
    /// leaves them clean.
    pub open spec fn updated(self, message: ColorMessage<C>) -> Self {
        match message {
            ColorMessage::Mode(m) => ColorControls { mode: Some(m), dirty: true, ..self },
            ColorMessage::Anchor1(ColorPickerMessage::Choose) => ColorControls {
                show_picker_1: true,
                dirty: false,
                ..self
            },
            ColorMessage::Anchor1(ColorPickerMessage::Submit(color)) => ColorControls {
                anchor1: color,
                show_picker_1: false,
                dirty: true,
                ..self
            },
            ColorMessage::Anchor1(ColorPickerMessage::Cancel) => ColorControls {
                show_picker_1: false,
                dirty: false,
                ..self
            },
            ColorMessage::Anchor2(ColorPickerMessage::Choose) => ColorControls {
                show_picker_2: true,
                dirty: false,
                ..self
            },
            ColorMessage::Anchor2(ColorPickerMessage::Submit(color)) => ColorControls {
                anchor2: color,
                show_picker_2: false,
                dirty: true,
                ..self
            },
            ColorMessage::Anchor2(ColorPickerMessage::Cancel) => ColorControls {
                show_picker_2: false,
                dirty: false,
                ..self
            },
            ColorMessage::PaletteChoice(c) => ColorControls {
                palette_choice: Some(c),
                dirty: true,
                ..self
            },
            ColorMessage::Null => ColorControls { dirty: true, ..self },
        }
    }

    pub fn update(&mut self, message: ColorMessage<C>)
        ensures
            *final(self) == old(self).updated(message),
    {
        match message {
            ColorMessage::Mode(m) => {
                self.mode = Some(m);
                self.dirty = true;
            },
            ColorMessage::Anchor1(message) => match message {
                ColorPickerMessage::Choose => {
                    self.show_picker_1 = true;
                    self.dirty = false;
                },
                ColorPickerMessage::Submit(color) => {
                    self.anchor1 = color;
                    self.show_picker_1 = false;
                    self.dirty = true;
                },
                ColorPickerMessage::Cancel => {
                    self.show_picker_1 = false;
                    self.dirty = false;
                },
            },
            ColorMessage::Anchor2(message) => match message {
                ColorPickerMessage::Choose => {
                    self.show_picker_2 = true;
                    self.dirty = false;
                },
                ColorPickerMessage::Submit(color) => {
                    self.anchor2 = color;
                    self.show_picker_2 = false;
                    self.dirty = true;
                },
                ColorPickerMessage::Cancel => {
                    self.show_picker_2 = false;
                    self.dirty = false;
                },
            },
            ColorMessage::PaletteChoice(c) => {
                self.palette_choice = Some(c);
                self.dirty = true;
            },
            ColorMessage::Null => self.dirty = true,
        }
    }
}

} // verus!
