//! Tile-request parameters: construction-time range checks on the tile
//! coordinates, mutators for the remaining fields, and the color-scheme
//! code mapping.

use vstd::prelude::*;
use vstd::arithmetic::power2::{pow2, lemma_pow2_strictly_increases, lemma2_to64};
use vstd::bits::{lemma_u32_shl_is_mul, lemma_u32_pow2_no_overflow};
use vstd::string::StringExecFns;
use crate::dec::{dec_seq, push_dec};
use crate::error::ParameterError;

verus! {

/// The color schemes the tile service offers. Each maps to a fixed integer
/// code used in tile URLs.
#[derive(Copy, Clone, Debug, PartialEq, Eq, Structural)]
pub enum ColorKind {
    BlackAndWhite,
    Original,
    UniversalBlue,
    Titan,
    TheWeatherChannel,
    Meteored,
    NexradLevelIII,
    RainbowSelexIS,
    DarkSky,
}

/// The wire code of a color scheme.
pub open spec fn color_code(color: ColorKind) -> u32 {
    match color {
        ColorKind::BlackAndWhite => 0u32,
        ColorKind::Original => 1u32,
        ColorKind::UniversalBlue => 2u32,
        ColorKind::Titan => 3u32,
        ColorKind::TheWeatherChannel => 4u32,
        ColorKind::Meteored => 5u32,
        ColorKind::NexradLevelIII => 6u32,
        ColorKind::RainbowSelexIS => 7u32,
        ColorKind::DarkSky => 8u32,
    }
}

impl From<ColorKind> for u32 {
    fn from(color: ColorKind) -> (r: u32) {
        match color {
            ColorKind::BlackAndWhite => 0u32,
            ColorKind::Original => 1u32,
            ColorKind::UniversalBlue => 2u32,
            ColorKind::Titan => 3u32,
            ColorKind::TheWeatherChannel => 4u32,
            ColorKind::Meteored => 5u32,
            ColorKind::NexradLevelIII => 6u32,
            ColorKind::RainbowSelexIS => 7u32,
            ColorKind::DarkSky => 8u32,
        }
    }
}

impl vstd::std_specs::convert::FromSpecImpl<ColorKind> for u32 {
    open spec fn obeys_from_spec() -> bool {
        true
    }

    open spec fn from_spec(color: ColorKind) -> u32 {
        color_code(color)
    }
}

/// The color scheme carrying a given wire code.
pub open spec fn color_of_code(n: u32) -> ColorKind {
    if n == 0 {
        ColorKind::BlackAndWhite
    } else if n == 1 {
        ColorKind::Original
    } else if n == 2 {
        ColorKind::UniversalBlue
    } else if n == 3 {
        ColorKind::Titan
    } else if n == 4 {
        ColorKind::TheWeatherChannel
    } else if n == 5 {
        ColorKind::Meteored
    } else if n == 6 {
        ColorKind::NexradLevelIII
    } else if n == 7 {
        ColorKind::RainbowSelexIS
    } else {
        ColorKind::DarkSky
    }
}

/// Law: the color-code mapping is a bijection between the nine color schemes
/// and the integers zero through eight, with `color_of_code` as its inverse
/// in both directions.
pub proof fn lemma_color_code_bijection()
    ensures
        forall|c: ColorKind| 0 <= #[trigger] color_code(c) <= 8,
        forall|c: ColorKind| color_of_code(#[trigger] color_code(c)) == c,
        forall|n: u32| 0 <= n <= 8 ==> color_code(#[trigger] color_of_code(n)) == n,
{
}

/// Whether coordinate `c` fits the grid at `zoom`: the grid at zoom `z` has
/// `2^z` cells along each axis.
pub open spec fn coord_ok(c: u32, zoom: u32) -> bool {
    (c as nat) < pow2(zoom as nat)
}

/// At zooms of 32 and above every 32-bit coordinate fits the grid.
proof fn lemma_coord_ok_wide(c: u32, zoom: u32)
    requires
        zoom >= 32,
    ensures
        coord_ok(c, zoom),
{
    lemma2_to64();
    if zoom > 32 {
        lemma_pow2_strictly_increases(32, zoom as nat);
    }
}

#[derive(Copy, Clone, Debug)]
struct TileArguments {
    size: u32,
    x: u32,
    y: u32,
    zoom: u32,
    color: ColorKind,
    smooth: bool,
    snow: bool,
}

#[derive(Copy, Clone, Debug)]
enum RequestArgumentsInner {
    Tile(TileArguments),
}

/// Arguments needed to pull a rain tile from the service.
#[derive(Copy, Clone, Debug)]
pub struct RequestArguments {
    inner: RequestArgumentsInner,
}

/// The abstract value of a set of tile arguments: every field the tile URL
/// depends on.
pub struct TileView {
    pub size: u32,
    pub x: u32,
    pub y: u32,
    pub zoom: u32,
    pub color: ColorKind,
    pub smooth: bool,
    pub snow: bool,
}

impl View for RequestArguments {
    type V = TileView;

    closed spec fn view(&self) -> TileView {
        match self.inner {
            RequestArgumentsInner::Tile(t) => TileView {
                size: t.size,
                x: t.x,
                y: t.y,
                zoom: t.zoom,
                color: t.color,
                smooth: t.smooth,
                snow: t.snow,
            },
        }
    }
}

/// The invariant of tile arguments: both coordinates fit the grid at the
/// chosen zoom, and the size is one the service renders. `new_tile`
/// establishes it and every mutator preserves it.
pub open spec fn args_wf(v: TileView) -> bool {
    coord_ok(v.x, v.zoom) && coord_ok(v.y, v.zoom) && (v.size == 256 || v.size == 512)
}

/// The arguments `new_tile` hands back on success: the given coordinates with
/// the default size, color scheme and options.
pub open spec fn default_tile_view(x: u32, y: u32, zoom: u32) -> TileView {
    TileView {
        size: 256,
        x,
        y,
        zoom,
        color: ColorKind::UniversalBlue,
        smooth: true,
        snow: true,
    }
}

/// The message reported with an out-of-range coordinate.
pub open spec fn range_message_seq(axis: Seq<char>, zoom: nat, limit: nat) -> Seq<char> {
    "With a zoom of "@ + dec_seq(zoom) + ", the max value for "@ + axis + " is "@ + dec_seq(
        limit,
    )
}

fn range_message(axis: &str, zoom: u32, limit: u32) -> (r: String)
    ensures
        r@ == range_message_seq(axis@, zoom as nat, limit as nat),
{
    let mut s = String::from_str("With a zoom of ");
    push_dec(&mut s, zoom);
    s.append(", the max value for ");
    s.append(axis);
    s.append(" is ");
    push_dec(&mut s, limit);
    proof {
        assert(s@ =~= range_message_seq(axis@, zoom as nat, limit as nat));
    }
    s
}

/// `v` with its size replaced.
pub open spec fn with_size(v: TileView, size: u32) -> TileView {
    TileView { size, ..v }
}

/// `v` with its smoothing flag replaced.
pub open spec fn with_smooth(v: TileView, smooth: bool) -> TileView {
    TileView { smooth, ..v }
}

/// `v` with its snow flag replaced.
pub open spec fn with_snow(v: TileView, snow: bool) -> TileView {
    TileView { snow, ..v }
}

/// `v` with its color scheme replaced.
pub open spec fn with_color(v: TileView, color: ColorKind) -> TileView {
    TileView { color, ..v }
}

/// Law: applying the same size twice changes the arguments exactly as
/// applying it once does.
pub proof fn lemma_set_size_idempotent(v: TileView, size: u32)
    ensures
        with_size(with_size(v, size), size) == with_size(v, size),
{
}

impl RequestArguments {
    /// Creates an arguments value for requesting a single radar tile.
    ///
    /// `x` and `y` must be less than `2^zoom`, or `Err(...)` is returned;
    /// `x` is checked first.
    pub fn new_tile(x: u32, y: u32, zoom: u32) -> (r: Result<Self, ParameterError>)
        ensures
            r is Ok <==> coord_ok(x, zoom) && coord_ok(y, zoom),
            r matches Ok(a) ==> a@ == default_tile_view(x, y, zoom),
            r matches Ok(a) ==> args_wf(a@),
            !coord_ok(x, zoom) ==> (r matches Err(e) && e matches ParameterError::XOutOfRange(
                v,
                m,
            ) && v == x && m@ == range_message_seq(
                "x"@,
                zoom as nat,
                (pow2(zoom as nat) - 1) as nat,
            )),
            coord_ok(x, zoom) && !coord_ok(y, zoom) ==> (r matches Err(e) && e
                matches ParameterError::YOutOfRange(v, m) && v == y && m@ == range_message_seq(
                "y"@,
                zoom as nat,
                (pow2(zoom as nat) - 1) as nat,
            )),
    {
        if zoom >= 32 {
            proof {
                lemma_coord_ok_wide(x, zoom);
                lemma_coord_ok_wide(y, zoom);
            }
            Ok(Self {
                inner: RequestArgumentsInner::Tile(TileArguments {
                    size: 256,
                    x,
                    y,
                    zoom,
                    color: ColorKind::UniversalBlue,
                    smooth: true,
                    snow: true,
                }),
            })
        } else {
            proof {
                lemma_u32_pow2_no_overflow(zoom as nat);
                lemma_u32_shl_is_mul(1u32, zoom);
            }
            let max_coord: u32 = 1u32 << zoom;
            if x >= max_coord {
                Err(ParameterError::XOutOfRange(x, range_message("x", zoom, max_coord - 1)))
            } else if y >= max_coord {
                Err(ParameterError::YOutOfRange(y, range_message("y", zoom, max_coord - 1)))
            } else {
                Ok(Self {
                    inner: RequestArgumentsInner::Tile(TileArguments {
                        size: 256,
                        x,
                        y,
                        zoom,
                        color: ColorKind::UniversalBlue,
                        smooth: true,
                        snow: true,
                    }),
                })
            }
        }
    }

    /// Sets the pixel size of the tile image the service will render.
    ///
    /// `size` must be 256 or 512, else `Err(...)` is returned and the
    /// arguments are unchanged.
    pub fn set_size(&mut self, size: u32) -> (r: Result<(), ParameterError>)
        ensures
            (size == 256 || size == 512) ==> (r is Ok && final(self)@ == with_size(
                old(self)@,
                size,
            )),
            !(size == 256 || size == 512) ==> (r matches Err(e) && e
                matches ParameterError::InvalidSize(v, m) && v == size && m@
                == "Image size must be either 256 or 512"@ && final(self)@ == old(self)@),
            args_wf(old(self)@) ==> args_wf(final(self)@),
    {
        if size == 256 || size == 512 {
            match self.inner {
                RequestArgumentsInner::Tile(mut tile) => {
                    tile.size = size;
                    self.inner = RequestArgumentsInner::Tile(tile);
                },
            }
            Ok(())
        } else {
            Err(ParameterError::InvalidSize(
                size,
                String::from_str("Image size must be either 256 or 512"),
            ))
        }
    }

    /// Sets whether the service smooths the tile image.
    pub fn set_smooth(&mut self, smooth: bool)
        ensures
            final(self)@ == with_smooth(old(self)@, smooth),
            args_wf(old(self)@) ==> args_wf(final(self)@),
    {
        match self.inner {
            RequestArgumentsInner::Tile(mut tile) => {
                tile.smooth = smooth;
                self.inner = RequestArgumentsInner::Tile(tile);
            },
        }
    }

    /// Sets whether the tile should show snow in addition to rain.
    pub fn set_snow(&mut self, snow: bool)
        ensures
            final(self)@ == with_snow(old(self)@, snow),
            args_wf(old(self)@) ==> args_wf(final(self)@),
    {
        match self.inner {
            RequestArgumentsInner::Tile(mut tile) => {
                tile.snow = snow;
                self.inner = RequestArgumentsInner::Tile(tile);
            },
        }
    }

    /// Sets the color scheme for the tile.
    pub fn set_color(&mut self, color: ColorKind)
        ensures
            final(self)@ == with_color(old(self)@, color),
            args_wf(old(self)@) ==> args_wf(final(self)@),
    {
        match self.inner {
            RequestArgumentsInner::Tile(mut tile) => {
                tile.color = color;
                self.inner = RequestArgumentsInner::Tile(tile);
            },
        }
    }

    /// The pixel size the tile will be rendered at.
    pub fn size(&self) -> (r: u32)
        ensures
            r == self@.size,
    {
        match self.inner {
            RequestArgumentsInner::Tile(t) => t.size,
        }
    }

    /// The horizontal tile coordinate.
    pub fn x(&self) -> (r: u32)
        ensures
            r == self@.x,
    {
        match self.inner {
            RequestArgumentsInner::Tile(t) => t.x,
        }
    }

    /// The vertical tile coordinate.
    pub fn y(&self) -> (r: u32)
        ensures
            r == self@.y,
    {
        match self.inner {
            RequestArgumentsInner::Tile(t) => t.y,
        }
    }

    /// The zoom level.
    pub fn zoom(&self) -> (r: u32)
        ensures
            r == self@.zoom,
    {
        match self.inner {
            RequestArgumentsInner::Tile(t) => t.zoom,
        }
    }

    /// The chosen color scheme.
    pub fn color(&self) -> (r: ColorKind)
        ensures
            r == self@.color,
    {
        match self.inner {
            RequestArgumentsInner::Tile(t) => t.color,
        }
    }

    /// Whether smoothing is requested.
    pub fn smooth(&self) -> (r: bool)
        ensures
            r == self@.smooth,
    {
        match self.inner {
            RequestArgumentsInner::Tile(t) => t.smooth,
        }
    }

    /// Whether snow display is requested.
    pub fn snow(&self) -> (r: bool)
        ensures
            r == self@.snow,
    {
        match self.inner {
            RequestArgumentsInner::Tile(t) => t.snow,
        }
    }
}

} // verus!

